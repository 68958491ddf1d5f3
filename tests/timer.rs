use geiger_counter_display::consts::{PULSE_MIN_PERIOD_US, TIM_TICKS_PER_SEC};
use geiger_counter_display::timer::{elapsed_ticks, wide_count, PulseTimer};

#[test]
fn elapsed_without_rollover() {
    assert_eq!(elapsed_ticks(1_000, 4_500), 3_500);
    assert_eq!(elapsed_ticks(7, 7), 0);
}

#[test]
fn elapsed_across_rollover() {
    assert_eq!(elapsed_ticks(0xffff_fff0, 0x10), 0x20);
    assert_eq!(elapsed_ticks(u32::MAX, 0), 1);
    assert_eq!(elapsed_ticks(1, 0), u32::MAX);
}

#[test]
fn elapsed_after_every_advance_near_boundary() {
    for a in [0u32, 1, 0x7fff_ffff, 0xffff_fffe, u32::MAX] {
        for k in [0u32, 1, 2, 1_000, 0x8000_0000, u32::MAX] {
            assert_eq!(elapsed_ticks(a, a.wrapping_add(k)), k);
        }
    }
}

#[test]
fn wide_count_without_rollover_uses_first_low_read() {
    assert_eq!(wide_count(0x0012, 0x3456, 0x0012, 0x9999), 0x0012_3456);
}

#[test]
fn wide_count_with_rollover_uses_second_low_read() {
    assert_eq!(wide_count(0x0012, 0xffff, 0x0013, 0x0002), 0x0013_0002);
    assert_eq!(wide_count(0xffff, 0xfffe, 0x0000, 0x0001), 0x0000_0001);
}

#[test]
fn first_pulse_is_measured_from_zero() {
    let mut t = PulseTimer::new(TIM_TICKS_PER_SEC, PULSE_MIN_PERIOD_US);
    assert_eq!(t.poll(9_000_000, false), Some(9_000_000));
    assert_eq!(t.last_pulse_ts(), 9_000_000);
}

#[test]
fn pulse_closer_than_min_period_is_dropped() {
    let mut t = PulseTimer::new(TIM_TICKS_PER_SEC, PULSE_MIN_PERIOD_US);
    assert_eq!(t.poll(100_000, false), Some(100_000));
    // 0.0003 s at 9 MHz
    assert_eq!(t.poll(102_700, false), None);
    assert_eq!(t.last_pulse_ts(), 100_000);
    // the next period is still measured from the last accepted pulse
    assert_eq!(t.poll(109_001, false), Some(9_001));
    assert_eq!(t.last_pulse_ts(), 109_001);
}

#[test]
fn pulse_exactly_at_min_period_is_dropped() {
    let mut t = PulseTimer::new(TIM_TICKS_PER_SEC, PULSE_MIN_PERIOD_US);
    assert_eq!(t.poll(4_500, false), None);
    assert_eq!(t.poll(4_501, false), Some(4_501));
}

#[test]
fn overcapture_drops_an_otherwise_valid_pulse() {
    let mut t = PulseTimer::new(TIM_TICKS_PER_SEC, PULSE_MIN_PERIOD_US);
    assert_eq!(t.poll(1_000_000, true), None);
    assert_eq!(t.last_pulse_ts(), 0);
    assert_eq!(t.poll(2_000_000, false), Some(2_000_000));
}

#[test]
fn period_across_counter_rollover() {
    let mut t = PulseTimer::new(TIM_TICKS_PER_SEC, PULSE_MIN_PERIOD_US);
    assert_eq!(t.poll(0xffff_0000, false), Some(0xffff_0000));
    assert_eq!(t.poll(0x0001_0000, false), Some(0x0002_0000));
    assert_eq!(t.last_pulse_ts(), 0x0001_0000);
}

#[test]
fn glitch_just_after_rollover_is_dropped() {
    let mut t = PulseTimer::new(TIM_TICKS_PER_SEC, PULSE_MIN_PERIOD_US);
    assert_eq!(t.poll(0xffff_ff00, false), Some(0xffff_ff00));
    assert_eq!(t.poll(0x0000_0010, false), None);
    assert_eq!(t.last_pulse_ts(), 0xffff_ff00);
}
