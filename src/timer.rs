//! Pulse capture: from raw capture tick counts to filtered pulse periods.
use vstd::prelude::*;

verus! {

/// The number of distinct values of the 32-bit capture counter.
pub open spec fn counter_range() -> int {
    0x1_0000_0000
}

/// Ticks elapsed from `last` to `now` on a counter that wraps around.
pub open spec fn ticks_between(last: u32, now: u32) -> int {
    (now - last) % counter_range()
}

/// Elapsed ticks from `last` to `now`, correct across a counter rollover.
pub fn elapsed_ticks(last: u32, now: u32) -> (r: u32)
    ensures
        r == ticks_between(last, now),
{
    now.wrapping_sub(last)
}

/// Moving `k` ticks forward from `a`, wrapping around, and measuring the
/// distance back to `a` gives `k` again, for every start and every distance
/// that the counter can represent.
pub proof fn lemma_elapsed_after_advance(a: u32, k: int)
    requires
        0 <= k < counter_range(),
    ensures
        ticks_between(a, ((a + k) % counter_range()) as u32) == k,
{
}

/// A 32-bit count made of a high and a low 16-bit half.
pub open spec fn joined(high: u16, low: u16) -> int {
    high * 0x1_0000 + low
}

/// Forms the 32-bit capture count from the chained timers, read in the order
/// high (`th1`), low (`tl1`), high again (`th2`), low again (`tl2`).
///
/// When the two high reads differ the low half rolled over in between, so the
/// second low read, taken after the second high read, is the one that goes
/// with `th2`. Otherwise `tl2` is not looked at.
pub fn wide_count(th1: u16, tl1: u16, th2: u16, tl2: u16) -> (r: u32)
    ensures
        r == (if th1 == th2 {
            joined(th2, tl1)
        } else {
            joined(th2, tl2)
        }),
{
    let low: u16 = if th1 == th2 {
        tl1
    } else {
        tl2
    };
    (th2 as u32) * 0x1_0000 + low as u32
}

/// A gap of `diff` ticks on a clock of `ticks_per_sec` ticks per second is no
/// longer than `min_period_us` microseconds, so it cannot be a genuine pulse.
pub open spec fn is_glitch(diff: int, ticks_per_sec: int, min_period_us: int) -> bool {
    diff * 1_000_000 <= min_period_us * ticks_per_sec
}

/// Glitch-filtering pulse period extraction on a wrapping 32-bit capture count.
pub struct PulseTimer {
    last_pulse_ts: u32,
    ticks_per_sec: u32,
    min_period_us: u32,
}

impl PulseTimer {
    /// The capture count of the last accepted pulse.
    pub closed spec fn last_accepted(&self) -> u32 {
        self.last_pulse_ts
    }

    /// Capture timer ticks per second.
    pub closed spec fn rate(&self) -> u32 {
        self.ticks_per_sec
    }

    /// Shortest accepted period, in microseconds.
    pub closed spec fn min_period(&self) -> u32 {
        self.min_period_us
    }

    /// The period that `poll` reports for a capture at `ts` on this timer's
    /// state, or `None` where the capture is dropped.
    pub open spec fn poll_result(&self, ts: u32, overcapture: bool) -> Option<u32> {
        let diff = ticks_between(self.last_accepted(), ts);
        if overcapture || is_glitch(diff, self.rate() as int, self.min_period() as int) {
            None
        } else {
            Some(diff as u32)
        }
    }

    /// A timer whose count starts at zero, measuring with `ticks_per_sec`
    /// ticks per second and dropping periods of at most `min_period_us`
    /// microseconds.
    pub fn new(ticks_per_sec: u32, min_period_us: u32) -> (r: Self)
        ensures
            r.last_accepted() == 0,
            r.rate() == ticks_per_sec,
            r.min_period() == min_period_us,
    {
        PulseTimer { last_pulse_ts: 0, ticks_per_sec, min_period_us }
    }

    /// The capture count of the last accepted pulse.
    pub fn last_pulse_ts(&self) -> (r: u32)
        ensures
            r == self.last_accepted(),
    {
        self.last_pulse_ts
    }

    /// Handles one capture event: `ts` is the capture count, `overcapture`
    /// whether the hardware saw a second edge before this one was read.
    ///
    /// Returns the period since the last accepted pulse, in ticks, unless the
    /// period is a glitch or the capture is overrun. Only an accepted pulse
    /// moves the reference count forward.
    pub fn poll(&mut self, ts: u32, overcapture: bool) -> (r: Option<u32>)
        ensures
            r == old(self).poll_result(ts, overcapture),
            overcapture ==> r is None,
            r is Some ==> !is_glitch(
                ticks_between(old(self).last_accepted(), ts),
                old(self).rate() as int,
                old(self).min_period() as int,
            ),
            final(self).last_accepted() == (if r is Some {
                ts
            } else {
                old(self).last_accepted()
            }),
            final(self).rate() == old(self).rate(),
            final(self).min_period() == old(self).min_period(),
    {
        let diff = elapsed_ticks(self.last_pulse_ts, ts);
        let scaled: u64 = diff as u64 * 1_000_000;
        let min_period = self.min_period_us;
        let rate = self.ticks_per_sec;
        assert(min_period as int * rate as int <= 0xffff_ffff * 0xffff_ffff) by (nonlinear_arith)
            requires
                min_period <= 0xffff_ffff,
                rate <= 0xffff_ffff,
        ;
        let floor: u64 = min_period as u64 * rate as u64;
        if overcapture || scaled <= floor {
            None
        } else {
            self.last_pulse_ts = ts;
            Some(diff)
        }
    }
}

} // verus!
