//! Clock configuration of the counter board.
use vstd::prelude::*;

verus! {

/// System clock frequency.
pub const SYS_FREQ_HZ: u32 = 72_000_000;

/// Tube recharge time: pulses closer together than this are noise.
pub const PULSE_MIN_PERIOD_US: u32 = 500;

/// Capture timer ticks per second, given the clock configuration.
pub const TIM_TICKS_PER_SEC: u32 = 9_000_000;

/// Monotonic clock ticks per second (a 10 ms tick).
pub const MONO_TICKS_PER_SEC: u64 = 100;

} // verus!
