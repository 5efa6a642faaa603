//! The two pieces of state shared by the producer and the renderer: the
//! playback clock and the lifecycle flag.

use vstd::prelude::*;

verus! {

/// Conversion factor between a timestamp and seconds: one tick lasts
/// `numer / denom` seconds.
#[derive(Clone, Copy, Debug, PartialEq, Eq, Structural)]
pub struct TimeBase {
    pub numer: u32,
    pub denom: u32,
}

impl TimeBase {
    pub open spec fn wf(&self) -> bool {
        self.numer > 0 && self.denom > 0
    }
}

/// A time of day in hours, minutes and seconds, the seconds split into a
/// whole part and an exact fraction `frac_num / frac_den`.
#[derive(Clone, Copy, Debug, PartialEq, Eq, Structural)]
pub struct Elapsed {
    pub hours: u64,
    pub minutes: u64,
    pub seconds: u64,
    pub frac_num: u32,
    pub frac_den: u32,
}

impl Elapsed {
    pub open spec fn wf(&self) -> bool {
        &&& self.minutes < 60
        &&& self.seconds < 60
        &&& self.frac_den > 0
        &&& self.frac_num < self.frac_den
    }

    /// Whether the fields are in range, as `wf` states.
    pub fn is_valid(&self) -> (r: bool)
        ensures
            r == self.wf(),
    {
        self.minutes < 60 && self.seconds < 60 && self.frac_den > 0 && self.frac_num < self.frac_den
    }

    /// Whole seconds since the start.
    pub open spec fn whole_seconds(&self) -> int {
        self.hours * 3600 + self.minutes * 60 + self.seconds
    }
}

/// `a` is not later than `b`.
pub open spec fn elapsed_le(a: Elapsed, b: Elapsed) -> bool {
    ||| a.whole_seconds() < b.whole_seconds()
    ||| (a.whole_seconds() == b.whole_seconds() && a.frac_num * b.frac_den <= b.frac_num
        * a.frac_den)
}

/// Whole seconds of `ts` ticks, wrapping at 2^64 as the decoder's own time
/// conversion does.
pub open spec fn whole_seconds_of(ts: u64, tb: TimeBase) -> int {
    ((ts * tb.numer) / (tb.denom as int)) % 0x1_0000_0000_0000_0000
}

/// The elapsed time at timestamp `ts`.
pub open spec fn elapsed_of(ts: u64, tb: TimeBase) -> Elapsed {
    let total = whole_seconds_of(ts, tb);
    Elapsed {
        hours: (total / 3600) as u64,
        minutes: ((total % 3600) / 60) as u64,
        seconds: (total % 60) as u64,
        frac_num: ((ts * tb.numer) % (tb.denom as int)) as u32,
        frac_den: tb.denom,
    }
}

/// Converts timestamp `ts` into hours, minutes and seconds.
pub fn elapsed_at(ts: u64, tb: TimeBase) -> (r: Elapsed)
    requires
        tb.wf(),
    ensures
        r == elapsed_of(ts, tb),
        r.wf(),
{
    assert(ts * tb.numer <= 0xffff_ffff_ffff_ffff * 0xffff_ffff) by (nonlinear_arith)
        requires ts <= 0xffff_ffff_ffff_ffffu64, tb.numer <= 0xffff_ffffu32;
    let dividend: u128 = (ts as u128) * (tb.numer as u128);
    let quotient: u128 = dividend / (tb.denom as u128);
    let rem: u128 = dividend % (tb.denom as u128);
    let total: u64 = (quotient % 0x1_0000_0000_0000_0000u128) as u64;
    Elapsed {
        hours: total / 3600,
        minutes: (total % 3600) / 60,
        seconds: total % 60,
        frac_num: rem as u32,
        frac_den: tb.denom,
    }
}

/// What a read of the clock returns: a position on the decoded timeline and
/// the elapsed time at that position.
#[derive(Clone, Copy, Debug, PartialEq, Eq, Structural)]
pub struct ClockValue {
    pub sample_index: u64,
    pub elapsed: Elapsed,
}

impl ClockValue {
    pub open spec fn wf(&self) -> bool {
        self.elapsed.wf()
    }
}

/// The position at start of playback: index 0, no time elapsed.
pub open spec fn clock_start() -> ClockValue {
    ClockValue {
        sample_index: 0,
        elapsed: Elapsed { hours: 0, minutes: 0, seconds: 0, frac_num: 0, frac_den: 1 },
    }
}

/// `b` may follow `a` on the clock: either nothing was written, or a write
/// moved position and elapsed time forward.
pub open spec fn clock_step(a: ClockValue, b: ClockValue) -> bool {
    b == a || (a.sample_index <= b.sample_index && elapsed_le(a.elapsed, b.elapsed))
}

/// Compares two elapsed times.
pub fn elapsed_not_after(a: &Elapsed, b: &Elapsed) -> (r: bool)
    requires
        a.wf(),
        b.wf(),
    ensures
        r == elapsed_le(*a, *b),
{
    let wa: u128 = (a.hours as u128) * 3600 + (a.minutes as u128) * 60 + (a.seconds as u128);
    let wb: u128 = (b.hours as u128) * 3600 + (b.minutes as u128) * 60 + (b.seconds as u128);
    if wa != wb {
        return wa < wb;
    }
    let (an, ad, bn, bd) = (a.frac_num as u64, a.frac_den as u64, b.frac_num as u64, b.frac_den as u64);
    assert(an * bd <= 0xffff_ffff * 0xffff_ffff && bn * ad <= 0xffff_ffff * 0xffff_ffff)
        by (nonlinear_arith)
        requires an <= 0xffff_ffff, bd <= 0xffff_ffff, bn <= 0xffff_ffff, ad <= 0xffff_ffff;
    let lhs: u64 = an * bd;
    let rhs: u64 = bn * ad;
    lhs <= rhs
}

/// Not later than is transitive.
pub proof fn lemma_elapsed_le_transitive(a: Elapsed, b: Elapsed, c: Elapsed)
    requires
        a.wf(),
        b.wf(),
        c.wf(),
        elapsed_le(a, b),
        elapsed_le(b, c),
    ensures
        elapsed_le(a, c),
{
    if a.whole_seconds() == b.whole_seconds() && b.whole_seconds() == c.whole_seconds() {
        let (an, ad) = (a.frac_num as int, a.frac_den as int);
        let (bn, bd) = (b.frac_num as int, b.frac_den as int);
        let (cn, cd) = (c.frac_num as int, c.frac_den as int);
        assert(an * bd * cd <= bn * ad * cd) by (nonlinear_arith)
            requires an * bd <= bn * ad, cd > 0;
        assert(bn * cd * ad <= cn * bd * ad) by (nonlinear_arith)
            requires bn * cd <= cn * bd, ad > 0;
        assert(an * cd * bd <= cn * ad * bd) by (nonlinear_arith)
            requires an * bd * cd <= bn * ad * cd, bn * cd * ad <= cn * bd * ad;
        assert(an * cd <= cn * ad) by (nonlinear_arith)
            requires an * cd * bd <= cn * ad * bd, bd > 0;
    }
}

/// Shared record of where audio output currently is. Position and elapsed
/// time are replaced together by one write, and the position never goes back.
pub struct PlaybackClock {
    value: ClockValue,
}

impl View for PlaybackClock {
    type V = ClockValue;

    closed spec fn view(&self) -> ClockValue {
        self.value
    }
}

impl PlaybackClock {
    pub closed spec fn wf(&self) -> bool {
        self.value.wf()
    }

    pub fn new() -> (r: PlaybackClock)
        ensures
            r@ == clock_start(),
            r.wf(),
    {
        PlaybackClock {
            value: ClockValue {
                sample_index: 0,
                elapsed: Elapsed { hours: 0, minutes: 0, seconds: 0, frac_num: 0, frac_den: 1 },
            },
        }
    }

    /// Replaces position and elapsed time as one unit. A write that would move
    /// either of them backwards is refused and leaves the clock as it was; the
    /// result tells whether the write took place.
    pub fn write(&mut self, position: u64, elapsed: Elapsed) -> (applied: bool)
        requires
            old(self).wf(),
            elapsed.wf(),
        ensures
            applied == (old(self)@.sample_index <= position && elapsed_le(
                old(self)@.elapsed,
                elapsed,
            )),
            applied ==> final(self)@ == (ClockValue { sample_index: position, elapsed }),
            !applied ==> final(self)@ == old(self)@,
            clock_step(old(self)@, final(self)@),
            final(self).wf(),
    {
        if self.value.sample_index <= position && elapsed_not_after(&self.value.elapsed, &elapsed) {
            self.value = ClockValue { sample_index: position, elapsed };
            true
        } else {
            false
        }
    }

    /// The most recently written value.
    pub fn read(&self) -> (r: ClockValue)
        requires
            self.wf(),
        ensures
            r == self@,
            r.wf(),
    {
        self.value
    }
}

/// Over any run of clock states, each reached from the one before by a write
/// or by no write at all, a read taken later never shows a smaller position
/// or an earlier elapsed time than a read taken earlier.
pub proof fn lemma_reads_never_go_back(run: Seq<ClockValue>, i: int, j: int)
    requires
        forall|k: int| 0 <= k < run.len() ==> (#[trigger] run[k]).wf(),
        forall|k: int| 0 <= k < run.len() - 1 ==> #[trigger] clock_step(run[k], run[k + 1]),
        0 <= i <= j < run.len(),
    ensures
        run[i].sample_index <= run[j].sample_index,
        elapsed_le(run[i].elapsed, run[j].elapsed),
    decreases j - i,
{
    if i < j {
        lemma_reads_never_go_back(run, i, j - 1);
        assert(clock_step(run[j - 1], run[j - 1 + 1]));
        assert(run[j - 1].wf() && run[j].wf() && run[i].wf());
        if run[j] != run[j - 1] {
            lemma_elapsed_le_transitive(run[i].elapsed, run[j - 1].elapsed, run[j].elapsed);
        }
    } else {
        assert(run[i].wf());
        let e = run[i].elapsed;
        assert(e.frac_num * e.frac_den <= e.frac_num * e.frac_den);
    }
}

/// The elapsed time at a timestamp never precedes the elapsed time at an
/// earlier timestamp, as long as the whole seconds do not wrap.
pub proof fn lemma_elapsed_monotonic(ts1: u64, ts2: u64, tb: TimeBase)
    requires
        tb.wf(),
        ts1 <= ts2,
        (ts2 * tb.numer) / (tb.denom as int) < 0x1_0000_0000_0000_0000,
    ensures
        elapsed_le(elapsed_of(ts1, tb), elapsed_of(ts2, tb)),
{
    let d = tb.denom as int;
    let n1 = ts1 * tb.numer;
    let n2 = ts2 * tb.numer;
    assert(0 <= n1 <= n2) by (nonlinear_arith)
        requires ts1 <= ts2, tb.numer > 0, n1 == ts1 * tb.numer, n2 == ts2 * tb.numer, ts1 >= 0;
    assert(n1 / d <= n2 / d) by (nonlinear_arith)
        requires 0 <= n1 <= n2, d > 0;
    assert(0 <= n1 / d) by (nonlinear_arith)
        requires 0 <= n1, d > 0;
    let t1 = n1 / d;
    let t2 = n2 / d;
    let e1 = elapsed_of(ts1, tb);
    let e2 = elapsed_of(ts2, tb);
    assert(t1 % 0x1_0000_0000_0000_0000 == t1);
    assert(t2 % 0x1_0000_0000_0000_0000 == t2);
    assert(e1.whole_seconds() == t1);
    assert(e2.whole_seconds() == t2);
    if t1 == t2 {
        assert(n1 % d <= n2 % d) by (nonlinear_arith)
            requires 0 <= n1 <= n2, d > 0, n1 / d == n2 / d;
        assert((n1 % d) * d <= (n2 % d) * d) by (nonlinear_arith)
            requires n1 % d <= n2 % d, d > 0;
    }
}

/// Shared liveness signal from the producer: `true` while it means to go on,
/// turned `false` once when it is done. Nothing turns it back.
pub struct LifecycleFlag {
    running: bool,
}

impl View for LifecycleFlag {
    type V = bool;

    /// Whether the producer is still running.
    closed spec fn view(&self) -> bool {
        self.running
    }
}

/// `b` may follow `a` on the flag: once down, it stays down.
pub open spec fn flag_step(a: bool, b: bool) -> bool {
    !a ==> !b
}

impl LifecycleFlag {
    pub fn new() -> (r: LifecycleFlag)
        ensures
            r@,
    {
        LifecycleFlag { running: true }
    }

    /// The one transition of the flag, from running to finished.
    pub fn set_finished(&mut self)
        ensures
            !final(self)@,
            flag_step(old(self)@, final(self)@),
    {
        self.running = false;
    }

    pub fn is_finished(&self) -> (r: bool)
        ensures
            r == !self@,
    {
        !self.running
    }
}

/// The flag is up exactly at the positions of `run` before `m`.
pub open spec fn up_until(run: Seq<bool>, m: int) -> bool {
    &&& 0 <= m <= run.len()
    &&& forall|i: int| 0 <= i < run.len() ==> (#[trigger] run[i] <==> i < m)
}

/// Over any run of flag states, each reached from the one before by
/// `set_finished` or by nothing, the values seen are some `true`s followed by
/// `false`s only: there is a point before which the flag is up and from which
/// on it is down.
pub proof fn lemma_flag_single_transition(run: Seq<bool>)
    requires
        forall|k: int| 0 <= k < run.len() - 1 ==> #[trigger] flag_step(run[k], run[k + 1]),
    ensures
        exists|m: int| #[trigger] up_until(run, m),
    decreases run.len(),
{
    if run.len() == 0 {
        assert(up_until(run, 0));
    } else {
        let front = run.drop_last();
        assert forall|k: int| 0 <= k < front.len() - 1 implies #[trigger] flag_step(
            front[k],
            front[k + 1],
        ) by {
            assert(flag_step(run[k], run[k + 1]));
        }
        lemma_flag_single_transition(front);
        let m0 = choose|m: int| #[trigger] up_until(front, m);
        let last = run.len() - 1;
        assert(forall|i: int| 0 <= i < front.len() ==> front[i] == run[i]);
        if run[last] {
            if last > 0 {
                assert(flag_step(run[last - 1], run[last - 1 + 1]));
                assert(front[last - 1]);
            }
            assert(m0 == front.len());
            assert(up_until(run, run.len() as int));
        } else {
            assert(up_until(run, m0));
        }
    }
}

} // verus!
