//! The volume field, computed from one reading of the mixer's master element.
use crate::text;
use vstd::prelude::*;
use vstd::string::*;

verus! {

/// What one playback-capable channel of the master element reported: its
/// playback switch and its raw volume, `None` standing for a failed query.
#[derive(Clone, Copy)]
pub struct ChannelProbe {
    pub switch: Option<i32>,
    pub volume: Option<i64>,
}

/// One reading of the master element: the volume range it advertises and one
/// probe per playback-capable channel.
pub struct MixerReading {
    pub vol_min: i64,
    pub vol_max: i64,
    pub channels: Vec<ChannelProbe>,
}

/// A probe that aborts the whole computation: an unreadable switch, or an
/// unreadable volume on an unmuted channel. A muted channel's volume is
/// never read, so its volume entry does not matter.
pub open spec fn probe_fails(p: ChannelProbe) -> bool {
    match p.switch {
        None => true,
        Some(sw) => sw != 0 && p.volume is None,
    }
}

pub open spec fn any_probe_fails(ps: Seq<ChannelProbe>) -> bool {
    exists|i: int| 0 <= i < ps.len() && probe_fails(ps[i])
}

/// What one probe adds to the running current sum: its volume's distance
/// from the range floor if the channel is unmuted, zero otherwise.
pub open spec fn probe_cur(p: ChannelProbe, vol_min: int) -> int {
    match p.switch {
        None => 0,
        Some(sw) => if sw != 0 {
            match p.volume {
                None => 0,
                Some(v) => v - vol_min,
            }
        } else {
            0
        },
    }
}

/// The summed contribution of the unmuted channels; muted channels add zero.
pub open spec fn cur_sum(ps: Seq<ChannelProbe>, vol_min: int) -> int
    decreases ps.len(),
{
    if ps.len() == 0 {
        0
    } else {
        cur_sum(ps.drop_last(), vol_min) + probe_cur(ps.last(), vol_min)
    }
}

/// The summed span of all channels, muted ones included.
pub open spec fn total_sum(n: nat, vol_min: int, vol_max: int) -> int {
    n * (vol_max - vol_min)
}

/// Nearest-integer percentage of `cur` within `total`, ties rounding up.
pub open spec fn percent_of(cur: int, total: int) -> int
    recommends
        0 < cur <= total,
{
    (100 * cur + total / 2) / total
}

/// The volume field for one successful mixer reading. A failed probe gives
/// the sentinel `E`. A zero current sum - every channel muted or at the
/// floor - gives the steady-state sentinel `-/-`. Otherwise the current sum
/// is a positive share of the total span and the field is its rounded
/// percentage; a reading outside that shape (a non-positive span or a volume
/// below the advertised floor) is degraded to `E` like a failed query.
pub open spec fn reading_text_spec(vol_min: int, vol_max: int, ps: Seq<ChannelProbe>) -> Seq<
    char,
> {
    if any_probe_fails(ps) {
        seq!['E']
    } else {
        let cur = cur_sum(ps, vol_min);
        let total = total_sum(ps.len(), vol_min, vol_max);
        if cur == 0 {
            seq!['-', '/', '-']
        } else if 0 < cur <= total {
            text::dec_rep(percent_of(cur, total) as nat) + seq!['%']
        } else {
            seq!['E']
        }
    }
}

/// The volume field: `E` when the mixer could not be opened or the master
/// element not found, else the text of the reading.
pub open spec fn volume_text_spec(sample: Option<MixerReading>) -> Seq<char> {
    match sample {
        None => seq!['E'],
        Some(m) => reading_text_spec(m.vol_min as int, m.vol_max as int, m.channels@),
    }
}

fn err_text() -> (r: String)
    ensures
        r@ == seq!['E'],
{
    proof {
        reveal_strlit("E");
        assert("E"@ =~= seq!['E']);
    }
    "E".to_owned()
}

fn muted_text() -> (r: String)
    ensures
        r@ == seq!['-', '/', '-'],
{
    proof {
        reveal_strlit("-/-");
        assert("-/-"@ =~= seq!['-', '/', '-']);
    }
    "-/-".to_owned()
}

/// The volume field for one sample of the mixer, or for its absence.
pub fn volume_text(sample: Option<MixerReading>) -> (r: String)
    requires
        // a vector of probes beyond this cannot exist in a 64-bit address space
        sample matches Some(m) ==> m.channels@.len() <= 0x100_0000_0000_0000,
    ensures
        r@ == volume_text_spec(sample),
{
    let m = match sample {
        None => {
            return err_text();
        },
        Some(m) => m,
    };
    let span: i128 = (m.vol_max as i128) - (m.vol_min as i128);
    let n = m.channels.len();
    let mut cur: i128 = 0;
    let mut failed = false;
    let mut i: usize = 0;
    while i < n && !failed
        invariant
            n == m.channels@.len(),
            n <= 0x100_0000_0000_0000,
            i <= n,
            span == m.vol_max - m.vol_min,
            !failed ==> !any_probe_fails(m.channels@.take(i as int)),
            !failed ==> cur == cur_sum(m.channels@.take(i as int), m.vol_min as int),
            -((i as int) * 0x1_0000_0000_0000_0000) <= cur <= (i as int)
                * 0x1_0000_0000_0000_0000,
            failed ==> any_probe_fails(m.channels@),
        decreases n - i,
    {
        let p = m.channels[i];
        match p.switch {
            None => {
                failed = true;
            },
            Some(sw) => {
                if sw != 0 {
                    match p.volume {
                        None => {
                            failed = true;
                        },
                        Some(v) => {
                            cur = cur + ((v as i128) - (m.vol_min as i128));
                        },
                    }
                }
            },
        }
        proof {
            assert(m.channels@.take(i + 1).drop_last() =~= m.channels@.take(i as int));
            assert(m.channels@.take(i + 1).last() == m.channels@[i as int]);
        }
        i = i + 1;
    }
    if failed {
        return err_text();
    }
    proof {
        assert(m.channels@.take(n as int) =~= m.channels@);
    }
    if cur == 0 {
        return muted_text();
    }
    proof {
        assert(-0x100_0000_0000_0000_0000_0000_0000_0000 <= (n as int) * (span as int)
            <= 0x100_0000_0000_0000_0000_0000_0000_0000) by (nonlinear_arith)
            requires
                0 <= n <= 0x100_0000_0000_0000,
                -0x1_0000_0000_0000_0000 < span < 0x1_0000_0000_0000_0000,
        {}
    }
    let total: i128 = (n as i128) * span;
    proof {
        assert(total == total_sum(m.channels@.len(), m.vol_min as int, m.vol_max as int));
    }
    if 0 < cur && cur <= total {
        let half: i128 = total / 2;
        let pct128: i128 = (100 * cur + half) / total;
        proof {
            let a = 100 * (cur as int) + (total as int) / 2;
            let b = 100 * (total as int) + (total as int) / 2;
            vstd::arithmetic::div_mod::lemma_fundamental_div_mod_converse(
                b,
                total as int,
                100,
                (total as int) / 2,
            );
            vstd::arithmetic::div_mod::lemma_div_is_ordered(a, b, total as int);
            vstd::arithmetic::div_mod::lemma_div_is_ordered(0, a, total as int);
            assert(pct128 == percent_of(cur as int, total as int));
            assert(0 <= pct128 <= 100);
        }
        let pct: u64 = pct128 as u64;
        let mut r = text::u64_text(pct);
        r.append("%");
        proof {
            reveal_strlit("%");
            assert(r@ =~= volume_text_spec(sample));
        }
        r
    } else {
        err_text()
    }
}

/// With every per-channel query answered, and the unmuted channels' summed
/// level a positive share of the summed span (levels within the advertised
/// range keep it so), the field is exactly the rounded percentage of current
/// within total, with a trailing `%`.
pub proof fn lemma_volume_percent(vol_min: int, vol_max: int, ps: Seq<ChannelProbe>)
    requires
        !any_probe_fails(ps),
        0 < cur_sum(ps, vol_min) <= total_sum(ps.len(), vol_min, vol_max),
    ensures
        reading_text_spec(vol_min, vol_max, ps) == text::dec_rep(
            percent_of(cur_sum(ps, vol_min), total_sum(ps.len(), vol_min, vol_max)) as nat,
        ) + seq!['%'],
{
}

/// Every channel muted - every playback switch off - composes the
/// steady-state sentinel, whatever the advertised range and the volumes.
pub proof fn lemma_all_muted(vol_min: int, vol_max: int, ps: Seq<ChannelProbe>)
    requires
        forall|i: int| 0 <= i < ps.len() ==> ps[i].switch == Some(0i32),
    ensures
        reading_text_spec(vol_min, vol_max, ps) == seq!['-', '/', '-'],
{
    lemma_cur_sum_muted(vol_min, ps);
    assert(!any_probe_fails(ps));
}

proof fn lemma_cur_sum_muted(vol_min: int, ps: Seq<ChannelProbe>)
    requires
        forall|i: int| 0 <= i < ps.len() ==> ps[i].switch == Some(0i32),
    ensures
        cur_sum(ps, vol_min) == 0,
    decreases ps.len(),
{
    if ps.len() > 0 {
        lemma_cur_sum_muted(vol_min, ps.drop_last());
    }
}

} // verus!
