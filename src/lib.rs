//! Pulse timing and windowed rate statistics for a Geiger-Müller tube counter.
//!
//! `timer` turns raw edge-capture tick counts into glitch-filtered pulse
//! periods; `pulse` keeps the most recent periods in a fixed ring and answers
//! windowed queries over them.
use vstd::prelude::*;

pub mod consts;
pub mod pulse;
pub mod timer;

use crate::pulse::{retained, PulseSample, SampleBuffer};
use crate::timer::PulseTimer;

verus! {

/// One capture interrupt: filters the capture at count `ts` through `timer`
/// and, where a period comes out, records it in `samples`, stamped with the
/// monotonic instant `now`. Returns the recorded period.
pub fn on_capture(
    timer: &mut PulseTimer,
    samples: &mut SampleBuffer,
    ts: u32,
    overcapture: bool,
    now: u64,
) -> (r: Option<u32>)
    requires
        old(samples).wf(),
    ensures
        r == old(timer).poll_result(ts, overcapture),
        final(timer).last_accepted() == (if r is Some {
            ts
        } else {
            old(timer).last_accepted()
        }),
        final(timer).rate() == old(timer).rate(),
        final(timer).min_period() == old(timer).min_period(),
        final(samples).wf(),
        final(samples)@ == (match r {
            Some(d) => retained(old(samples)@.push(PulseSample { duration_ticks: d, ts: now })),
            None => old(samples)@,
        }),
{
    let period = timer.poll(ts, overcapture);
    if let Some(d) = period {
        samples.add(PulseSample::new(d, now));
    }
    period
}

} // verus!
