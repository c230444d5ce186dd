//! Decimal rendering and left-padding of the numeric fields.
use vstd::prelude::*;
use vstd::string::*;

verus! {

/// The character for one decimal digit.
pub open spec fn digit_char(d: nat) -> char {
    if d == 0 {
        '0'
    } else if d == 1 {
        '1'
    } else if d == 2 {
        '2'
    } else if d == 3 {
        '3'
    } else if d == 4 {
        '4'
    } else if d == 5 {
        '5'
    } else if d == 6 {
        '6'
    } else if d == 7 {
        '7'
    } else if d == 8 {
        '8'
    } else {
        '9'
    }
}

/// The decimal digits of `n`, most significant first, without leading
/// zeroes (a single `0` for zero).
pub open spec fn dec_rep(n: nat) -> Seq<char>
    decreases n,
{
    if n < 10 {
        seq![digit_char(n)]
    } else {
        dec_rep(n / 10).push(digit_char(n % 10))
    }
}

/// `k` space characters.
pub open spec fn spaces(k: nat) -> Seq<char>
    decreases k,
{
    if k == 0 {
        Seq::empty()
    } else {
        spaces((k - 1) as nat).push(' ')
    }
}

/// `s` left-padded with spaces to width `w`; unchanged when already wide enough.
pub open spec fn pad_left(s: Seq<char>, w: nat) -> Seq<char> {
    if s.len() >= w {
        s
    } else {
        spaces((w - s.len()) as nat) + s
    }
}

pub proof fn lemma_spaces_len(k: nat)
    ensures
        spaces(k).len() == k,
    decreases k,
{
    if k > 0 {
        lemma_spaces_len((k - 1) as nat);
    }
}

pub proof fn lemma_dec_rep_len(n: nat)
    ensures
        dec_rep(n).len() >= 1,
    decreases n,
{
    if n >= 10 {
        lemma_dec_rep_len(n / 10);
    }
}

pub proof fn lemma_pad_left_parts(s: Seq<char>, w: nat)
    ensures
        pad_left(s, w).len() == if s.len() >= w {
            s.len()
        } else {
            w
        },
        pad_left(s, w).subrange(
            pad_left(s, w).len() - s.len(),
            pad_left(s, w).len() as int,
        ) == s,
{
    if s.len() < w {
        lemma_spaces_len((w - s.len()) as nat);
    }
    assert(pad_left(s, w).subrange(pad_left(s, w).len() - s.len(), pad_left(s, w).len() as int)
        =~= s);
}

/// Used memory of at most 1024 KB is shown in kilobytes: the field ends in
/// `KB`, and right before the unit stand the decimal digits of the value
/// itself, unconverted.
pub proof fn lemma_mem_text_kb(kb: nat)
    requires
        kb <= 1024,
    ensures
        mem_text_spec(kb) == pad_left(dec_rep(kb), 3) + seq!['K', 'B'],
        mem_text_spec(kb).len() >= 5,
        mem_text_spec(kb).subrange(
            mem_text_spec(kb).len() - 2,
            mem_text_spec(kb).len() as int,
        ) == seq!['K', 'B'],
        mem_text_spec(kb).subrange(
            mem_text_spec(kb).len() - 2 - dec_rep(kb).len(),
            mem_text_spec(kb).len() - 2,
        ) == dec_rep(kb),
{
    lemma_dec_rep_len(kb);
    lemma_pad_left_parts(dec_rep(kb), 3);
    assert(mem_text_spec(kb).subrange(mem_text_spec(kb).len() - 2, mem_text_spec(kb).len() as int)
        =~= seq!['K', 'B']);
    assert(mem_text_spec(kb).subrange(
        mem_text_spec(kb).len() - 2 - dec_rep(kb).len(),
        mem_text_spec(kb).len() - 2,
    ) =~= pad_left(dec_rep(kb), 3).subrange(
        pad_left(dec_rep(kb), 3).len() - dec_rep(kb).len(),
        pad_left(dec_rep(kb), 3).len() as int,
    ));
}

/// Used memory above 1024 KB but under the gigabyte threshold is shown in
/// megabytes: the field ends in `MB`, preceded by the digits of `kb / 1024`.
pub proof fn lemma_mem_text_mb(kb: nat)
    requires
        1024 < kb,
        kb / 1024 < spec_gb_threshold(),
    ensures
        mem_text_spec(kb) == pad_left(dec_rep(kb / 1024), 3) + seq!['M', 'B'],
        mem_text_spec(kb).len() >= 5,
        mem_text_spec(kb).subrange(
            mem_text_spec(kb).len() - 2,
            mem_text_spec(kb).len() as int,
        ) == seq!['M', 'B'],
        mem_text_spec(kb).subrange(
            mem_text_spec(kb).len() - 2 - dec_rep(kb / 1024).len(),
            mem_text_spec(kb).len() - 2,
        ) == dec_rep(kb / 1024),
{
    lemma_dec_rep_len(kb / 1024);
    lemma_pad_left_parts(dec_rep(kb / 1024), 3);
    assert(mem_text_spec(kb).subrange(mem_text_spec(kb).len() - 2, mem_text_spec(kb).len() as int)
        =~= seq!['M', 'B']);
    assert(mem_text_spec(kb).subrange(
        mem_text_spec(kb).len() - 2 - dec_rep(kb / 1024).len(),
        mem_text_spec(kb).len() - 2,
    ) =~= pad_left(dec_rep(kb / 1024), 3).subrange(
        pad_left(dec_rep(kb / 1024), 3).len() - dec_rep(kb / 1024).len(),
        pad_left(dec_rep(kb / 1024), 3).len() as int,
    ));
}

/// Used memory of at least the gigabyte threshold of megabytes is shown in
/// gigabytes: the digits of the whole part, a dot, exactly one tenths digit,
/// then `GB`; the shown tenths are `(kb / 1024) / 1024` rounded to the
/// nearest tenth (`1024 * tenths` stays within `512` of `10 * (kb / 1024)`).
pub proof fn lemma_mem_text_gb(kb: nat)
    requires
        kb / 1024 >= spec_gb_threshold(),
    ensures
        mem_text_spec(kb) == dec_rep(gb_tenths(kb / 1024) / 10) + seq!['.'] + seq![
            digit_char(gb_tenths(kb / 1024) % 10),
        ] + seq!['G', 'B'],
        mem_text_spec(kb).subrange(
            mem_text_spec(kb).len() - 2,
            mem_text_spec(kb).len() as int,
        ) == seq!['G', 'B'],
        10 * (kb / 1024) - 512 <= 1024 * gb_tenths(kb / 1024) <= 10 * (kb / 1024) + 512,
{
    let mb = kb / 1024;
    vstd::arithmetic::div_mod::lemma_fundamental_div_mod(kb as int, 1024);
    assert(kb > 1024);
    let m10 = mb * 10;
    vstd::arithmetic::div_mod::lemma_fundamental_div_mod(m10 as int, 1024);
    vstd::arithmetic::div_mod::lemma_mod_division_less_than_divisor(m10 as int, 1024);
    assert(mem_text_spec(kb).subrange(mem_text_spec(kb).len() - 2, mem_text_spec(kb).len() as int)
        =~= seq!['G', 'B']);
}

fn digit_str(d: u64) -> (r: &'static str)
    requires
        d < 10,
    ensures
        r@ == seq![digit_char(d as nat)],
{
    proof {
        reveal_strlit("0");
        reveal_strlit("1");
        reveal_strlit("2");
        reveal_strlit("3");
        reveal_strlit("4");
        reveal_strlit("5");
        reveal_strlit("6");
        reveal_strlit("7");
        reveal_strlit("8");
        reveal_strlit("9");
    }
    let r: &'static str = match d {
        0 => "0",
        1 => "1",
        2 => "2",
        3 => "3",
        4 => "4",
        5 => "5",
        6 => "6",
        7 => "7",
        8 => "8",
        _ => "9",
    };
    proof {
        assert(r@ =~= seq![digit_char(d as nat)]);
    }
    r
}

/// The decimal text of `n`.
pub fn u64_text(n: u64) -> (r: String)
    ensures
        r@ == dec_rep(n as nat),
    decreases n,
{
    if n < 10 {
        digit_str(n).to_owned()
    } else {
        let mut s = u64_text(n / 10);
        s.append(digit_str(n % 10));
        proof {
            assert(s@ =~= dec_rep(n as nat));
        }
        s
    }
}

/// The CPU field: the percentage, at least two characters wide, then `%`.
pub open spec fn cpu_text_spec(p: nat) -> Seq<char> {
    pad_left(dec_rep(p), 2) + seq!['%']
}

/// Megabyte count at which the memory field switches to gigabytes.
pub open spec fn spec_gb_threshold() -> nat {
    1024
}

/// Tenths of a gigabyte for `mb` megabytes: `mb * 10 / 1024` rounded to the
/// nearest integer, ties to even.
pub open spec fn gb_tenths(mb: nat) -> nat {
    let q = mb * 10 / 1024;
    let rem = mb * 10 % 1024;
    if rem > 512 || (rem == 512 && q % 2 == 1) {
        q + 1
    } else {
        q
    }
}

/// The gigabyte form: whole part, `.`, one tenths digit, `GB`.
pub open spec fn gb_text_spec(mb: nat) -> Seq<char> {
    dec_rep(gb_tenths(mb) / 10) + seq!['.'] + seq![digit_char(gb_tenths(mb) % 10)] + seq![
        'G',
        'B',
    ]
}

/// The memory field for `kb` kilobytes of used memory. At most 1024 KB it is
/// the kilobyte count; above that, the megabyte count; from 1024 MB on, the
/// gigabyte form with one decimal. Kilo- and megabyte counts are padded to
/// width 3.
pub open spec fn mem_text_spec(kb: nat) -> Seq<char> {
    if kb <= 1024 {
        pad_left(dec_rep(kb), 3) + seq!['K', 'B']
    } else {
        let mb = kb / 1024;
        if mb >= spec_gb_threshold() {
            gb_text_spec(mb)
        } else {
            pad_left(dec_rep(mb), 3) + seq!['M', 'B']
        }
    }
}

/// Two decimal digits, zero-padded, for `n < 100`.
pub open spec fn two_digits(n: nat) -> Seq<char> {
    seq![digit_char(n / 10), digit_char(n % 10)]
}

/// The time field: `MM/DD hh:mm`, each part zero-padded to two digits.
pub open spec fn time_text_spec(month: nat, day: nat, hour: nat, minute: nat) -> Seq<char> {
    two_digits(month) + seq!['/'] + two_digits(day) + seq![' '] + two_digits(hour) + seq![':']
        + two_digits(minute)
}

/// `s` left-padded with spaces to width `w`.
pub fn pad_left_text(s: String, w: usize) -> (r: String)
    ensures
        r@ == pad_left(s@, w as nat),
{
    let n = s.as_str().unicode_len();
    if n >= w {
        s
    } else {
        proof {
            reveal_strlit(" ");
        }
        let mut r = String::new();
        let mut i: usize = 0;
        while i < w - n
            invariant
                n == s@.len(),
                n < w,
                i <= w - n,
                r@ == spaces(i as nat),
            decreases w - n - i,
        {
            r.append(" ");
            i = i + 1;
            proof {
                reveal_strlit(" ");
                assert(r@ =~= spaces(i as nat));
            }
        }
        r.append(s.as_str());
        proof {
            assert(r@ =~= pad_left(s@, w as nat));
        }
        r
    }
}

/// The CPU field for an integer percentage.
pub fn cpu_text(p: u64) -> (r: String)
    ensures
        r@ == cpu_text_spec(p as nat),
{
    let mut r = pad_left_text(u64_text(p), 2);
    r.append("%");
    proof {
        reveal_strlit("%");
        assert(r@ =~= cpu_text_spec(p as nat));
    }
    r
}

/// The memory field for `kb` kilobytes of used memory.
pub fn mem_text(kb: u64) -> (r: String)
    ensures
        r@ == mem_text_spec(kb as nat),
{
    if kb <= 1024 {
        let mut r = pad_left_text(u64_text(kb), 3);
        r.append("KB");
        proof {
            reveal_strlit("KB");
            assert(r@ =~= mem_text_spec(kb as nat));
        }
        r
    } else {
        let mb = kb / 1024;
        if mb >= 1024 {
            let t = mb * 10;
            let q = t / 1024;
            let rem = t % 1024;
            let tenths = if rem > 512 || (rem == 512 && q % 2 == 1) {
                q + 1
            } else {
                q
            };
            let mut r = u64_text(tenths / 10);
            r.append(".");
            r.append(digit_str(tenths % 10));
            r.append("GB");
            proof {
                reveal_strlit(".");
                reveal_strlit("GB");
                assert(tenths == gb_tenths(mb as nat));
                assert(r@ =~= mem_text_spec(kb as nat));
            }
            r
        } else {
            let mut r = pad_left_text(u64_text(mb), 3);
            r.append("MB");
            proof {
                reveal_strlit("MB");
                assert(r@ =~= mem_text_spec(kb as nat));
            }
            r
        }
    }
}

/// Two zero-padded decimal digits.
fn two_digit_text(n: u32) -> (r: String)
    requires
        n < 100,
    ensures
        r@ == two_digits(n as nat),
{
    let mut r = digit_str((n / 10) as u64).to_owned();
    r.append(digit_str((n % 10) as u64));
    proof {
        assert(r@ =~= two_digits(n as nat));
    }
    r
}

/// The time field `MM/DD hh:mm`.
pub fn time_text(month: u32, day: u32, hour: u32, minute: u32) -> (r: String)
    requires
        month < 100,
        day < 100,
        hour < 100,
        minute < 100,
    ensures
        r@ == time_text_spec(month as nat, day as nat, hour as nat, minute as nat),
{
    let mut r = two_digit_text(month);
    r.append("/");
    let d = two_digit_text(day);
    r.append(d.as_str());
    r.append(" ");
    let h = two_digit_text(hour);
    r.append(h.as_str());
    r.append(":");
    let m = two_digit_text(minute);
    r.append(m.as_str());
    proof {
        reveal_strlit("/");
        reveal_strlit(" ");
        reveal_strlit(":");
        assert(r@ =~= time_text_spec(month as nat, day as nat, hour as nat, minute as nat));
    }
    r
}

} // verus!
