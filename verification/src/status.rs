//! The status record, the per-tick refresh decision, and the composed line.
use crate::clock::TimeFields;
use crate::text;
use vstd::prelude::*;
use vstd::string::*;

verus! {

/// The latest sampled values, each already formatted, and a dirty flag that
/// is raised whenever a field changed since the last publish.
pub struct Status {
    /// Formatted local time, `MM/DD hh:mm`.
    pub time: String,
    /// Formatted CPU load, e.g. ` 7%`.
    pub cpu: String,
    /// Formatted used memory, e.g. `512KB`.
    pub mem: String,
    /// Formatted volume percentage or a sentinel.
    pub vol: String,
    /// True when an unpublished change is pending.
    pub dirty: bool,
}

/// Whether the time field is refreshed at `stamp`: forced, or on a wall-clock
/// minute boundary.
pub open spec fn time_due(stamp: i64, force: bool) -> bool {
    force || stamp % 60 == 0
}

/// Whether CPU and memory are refreshed at `stamp`: forced, or on a wall-clock
/// second that is a multiple of three.
pub open spec fn system_due(stamp: i64, force: bool) -> bool {
    force || stamp % 3 == 0
}

/// The composed line: `[cpu|mem] (vol) time` in extended mode,
/// `[cpu|mem] time` otherwise.
pub open spec fn compose_spec(
    cpu: Seq<char>,
    mem: Seq<char>,
    vol: Seq<char>,
    time: Seq<char>,
    extended: bool,
) -> Seq<char> {
    if extended {
        seq!['['] + cpu + seq!['|'] + mem + seq![']', ' ', '('] + vol + seq![')', ' '] + time
    } else {
        seq!['['] + cpu + seq!['|'] + mem + seq![']', ' '] + time
    }
}

/// The mode the flag takes after one toggle.
pub open spec fn toggled(extended: bool) -> bool {
    !extended
}

/// Flips the extended-mode flag; the signal handler's whole effect.
pub fn toggle_mode(extended: bool) -> (r: bool)
    ensures
        r == toggled(extended),
{
    !extended
}

/// Toggling the mode twice in succession composes the very line that the
/// original mode composed.
pub proof fn lemma_toggle_twice(
    cpu: Seq<char>,
    mem: Seq<char>,
    vol: Seq<char>,
    time: Seq<char>,
    extended: bool,
)
    ensures
        compose_spec(cpu, mem, vol, time, toggled(toggled(extended))) == compose_spec(
            cpu,
            mem,
            vol,
            time,
            extended,
        ),
{
}

impl Status {
    /// A fresh record: every field empty, nothing pending.
    pub fn new() -> (s: Status)
        ensures
            s.time@ == Seq::<char>::empty(),
            s.cpu@ == Seq::<char>::empty(),
            s.mem@ == Seq::<char>::empty(),
            s.vol@ == Seq::<char>::empty(),
            !s.dirty,
    {
        Status {
            time: String::new(),
            cpu: String::new(),
            mem: String::new(),
            vol: String::new(),
            dirty: false,
        }
    }

    /// One evaluation of the scheduler at instant `t`: the time field is
    /// rewritten only when due, CPU and memory only when due (from the given
    /// percentage and kilobyte count), the volume field only when a sampled
    /// text is handed in; any rewrite raises the dirty flag.
    pub fn apply_tick(
        &mut self,
        t: TimeFields,
        force: bool,
        cpu_pct: u64,
        mem_kb: u64,
        vol: Option<String>,
    )
        requires
            t.wf(),
        ensures
            time_due(t.stamp, force) ==> final(self).time@ == text::time_text_spec(
                t.month as nat,
                t.day as nat,
                t.hour as nat,
                t.minute as nat,
            ),
            !time_due(t.stamp, force) ==> final(self).time == old(self).time,
            system_due(t.stamp, force) ==> final(self).cpu@ == text::cpu_text_spec(cpu_pct as nat)
                && final(self).mem@ == text::mem_text_spec(mem_kb as nat),
            !system_due(t.stamp, force) ==> final(self).cpu == old(self).cpu && final(self).mem
                == old(self).mem,
            vol matches Some(v) ==> final(self).vol == v,
            vol is None ==> final(self).vol == old(self).vol,
            final(self).dirty == (old(self).dirty || time_due(t.stamp, force) || system_due(
                t.stamp,
                force,
            ) || vol is Some),
    {
        if force || t.stamp % 60 == 0 {
            self.time = text::time_text(t.month, t.day, t.hour, t.minute);
            self.dirty = true;
        }
        match vol {
            Some(v) => {
                self.vol = v;
                self.dirty = true;
            },
            None => {},
        }
        if force || t.stamp % 3 == 0 {
            self.cpu = text::cpu_text(cpu_pct);
            self.mem = text::mem_text(mem_kb);
            self.dirty = true;
        }
    }

    /// One full tick: samples the clock once, refreshes CPU and memory only
    /// when due at the sampled instant, takes an already-sampled volume text
    /// when one is handed in, and raises the dirty flag on any change.
    /// Whatever instant and figures the machine returned, a pending change is
    /// never lost, a forced tick and a volume text always leave one, and the
    /// volume field changes only to the text handed in.
    pub fn refresh(&mut self, sys: &mut sysinfo::System, vol: Option<String>, force: bool)
        ensures
            old(self).dirty ==> final(self).dirty,
            force ==> final(self).dirty,
            vol matches Some(v) ==> final(self).vol == v && final(self).dirty,
            vol is None ==> final(self).vol == old(self).vol,
            final(self).time == old(self).time || (exists|mo: nat, d: nat, h: nat, mi: nat|
                1 <= mo <= 12 && 1 <= d <= 31 && h <= 23 && mi <= 59 && final(self).time@
                    == text::time_text_spec(mo, d, h, mi)),
            final(self).cpu == old(self).cpu || (exists|p: nat|
                final(self).cpu@ == text::cpu_text_spec(p)),
            final(self).mem == old(self).mem || (exists|kb: nat|
                final(self).mem@ == text::mem_text_spec(kb)),
            force ==> (exists|mo: nat, d: nat, h: nat, mi: nat|
                1 <= mo <= 12 && 1 <= d <= 31 && h <= 23 && mi <= 59 && final(self).time@
                    == text::time_text_spec(mo, d, h, mi)),
            force ==> (exists|p: nat| final(self).cpu@ == text::cpu_text_spec(p)),
            force ==> (exists|kb: nat| final(self).mem@ == text::mem_text_spec(kb)),
    {
        let t = crate::clock::now_fields();
        let due_sys = force || t.stamp % 3 == 0;
        let (pct, kb): (u64, u64) = if due_sys {
            crate::sysmon::sample_system(sys)
        } else {
            (0, 0)
        };
        self.apply_tick(t, force, pct, kb, vol);
        proof {
            if self.time != old(self).time {
                assert(self.time@ == text::time_text_spec(
                    t.month as nat,
                    t.day as nat,
                    t.hour as nat,
                    t.minute as nat,
                ));
            }
            if self.cpu != old(self).cpu {
                assert(self.cpu@ == text::cpu_text_spec(pct as nat));
            }
            if self.mem != old(self).mem {
                assert(self.mem@ == text::mem_text_spec(kb as nat));
            }
            if force {
                assert(self.time@ == text::time_text_spec(
                    t.month as nat,
                    t.day as nat,
                    t.hour as nat,
                    t.minute as nat,
                ));
                assert(self.cpu@ == text::cpu_text_spec(pct as nat));
                assert(self.mem@ == text::mem_text_spec(kb as nat));
            }
        }
    }

    /// The line to publish for the current fields and mode.
    pub fn compose(&self, extended: bool) -> (r: String)
        ensures
            r@ == compose_spec(self.cpu@, self.mem@, self.vol@, self.time@, extended),
    {
        let mut r = "[".to_owned();
        r.append(self.cpu.as_str());
        r.append("|");
        r.append(self.mem.as_str());
        if extended {
            r.append("] (");
            r.append(self.vol.as_str());
            r.append(") ");
        } else {
            r.append("] ");
        }
        r.append(self.time.as_str());
        proof {
            reveal_strlit("[");
            reveal_strlit("|");
            reveal_strlit("] (");
            reveal_strlit(") ");
            reveal_strlit("] ");
            assert(r@ =~= compose_spec(self.cpu@, self.mem@, self.vol@, self.time@, extended));
        }
        r
    }

    /// Clears the dirty flag once the composed line went out.
    pub fn mark_published(&mut self)
        ensures
            !final(self).dirty,
            final(self).time == old(self).time,
            final(self).cpu == old(self).cpu,
            final(self).mem == old(self).mem,
            final(self).vol == old(self).vol,
    {
        self.dirty = false;
    }
}

/// The published line with the terminator the display protocol wants.
pub fn null_terminated(s: &str) -> (r: String)
    ensures
        r@ == s@ + seq!['\0'],
{
    let mut r = s.to_owned();
    r.append("\0");
    proof {
        reveal_strlit("\0");
        assert(r@ =~= s@ + seq!['\0']);
    }
    r
}

} // verus!
