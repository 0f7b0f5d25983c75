use stm32_pwm::freq::{can_reach, output_frequency, period_register};

#[test]
fn period_is_one_less_than_the_ticks_of_a_sweep() {
    assert_eq!(period_register(32_000_000, 1000), Some(31999));
    assert_eq!(period_register(32_000_000, 2000), Some(15999));
    assert_eq!(period_register(100, 3), Some(32));
    assert_eq!(period_register(72_000_000, 1100), Some(65453));
}

#[test]
fn a_sweep_of_one_tick_has_period_zero() {
    assert_eq!(period_register(7, 7), Some(0));
    assert_eq!(period_register(13, 7), Some(0));
}

#[test]
fn the_longest_sweep_fills_the_period_register() {
    assert_eq!(period_register(65536, 1), Some(65535));
    assert_eq!(period_register(65537, 1), None);
    assert_eq!(period_register(131071, 2), Some(65534));
    assert_eq!(period_register(131072, 2), Some(65535));
    assert_eq!(period_register(131074, 2), None);
}

#[test]
fn a_rate_of_zero_cannot_be_reached() {
    assert_eq!(period_register(32_000_000, 0), None);
    assert_eq!(period_register(0, 0), None);
}

#[test]
fn a_rate_above_the_clock_cannot_be_reached() {
    assert_eq!(period_register(1000, 2000), None);
    assert_eq!(period_register(0, 1), None);
    assert_eq!(period_register(u32::MAX - 1, u32::MAX), None);
}

#[test]
fn a_rate_too_slow_for_the_register_cannot_be_reached() {
    assert_eq!(period_register(32_000_000, 100), None);
    assert_eq!(period_register(u32::MAX, 1), None);
}

#[test]
fn output_frequency_divides_the_clock_by_the_ticks_of_a_period() {
    assert_eq!(output_frequency(32_000_000, 31999, 1), 1000);
    assert_eq!(output_frequency(32_000_000, 15999, 2), 1000);
    assert_eq!(output_frequency(100, 32, 1), 3);
    assert_eq!(output_frequency(100, 0, 2), 50);
    assert_eq!(output_frequency(100, 0, 1), 100);
}

#[test]
fn output_frequency_at_the_ends_of_the_range() {
    assert_eq!(output_frequency(u32::MAX, 65535, 2), 32767);
    assert_eq!(output_frequency(u32::MAX, 65535, 1), 65535);
    assert_eq!(output_frequency(0, 0, 1), 0);
    assert_eq!(output_frequency(65535, 65535, 1), 0);
}

#[test]
fn the_frequency_that_comes_out_brackets_the_one_asked_for() {
    let cases: [(u32, u32, u8); 5] =
        [(100, 3, 1), (1_000_000, 300, 1), (72_000_000, 1100, 1), (100, 3, 2), (84_000_000, 20_001, 2)];
    for (clock, freq, factor) in cases {
        let period = period_register(clock, freq * factor as u32).unwrap();
        let actual = output_frequency(clock, period, factor);
        assert!(freq <= actual);
        assert!(output_frequency(clock, period + 1, factor) < freq);
        assert!((actual - freq) as u64 * (period as u64 + 1) < freq as u64);
    }
}

#[test]
fn a_frequency_can_be_reached_if_its_sweeps_fit_clock_and_register() {
    assert!(can_reach(32_000_000, 1000, 1));
    assert!(can_reach(32_000_000, 1000, 2));
    assert!(can_reach(32_000_000, 489, 1));
    assert!(!can_reach(32_000_000, 488, 1));
    assert!(can_reach(32_000_000, 245, 2));
    assert!(!can_reach(32_000_000, 244, 2));
    assert!(can_reach(32_000_000, 32_000_000, 1));
    assert!(!can_reach(32_000_000, 32_000_001, 1));
    assert!(can_reach(32_000_000, 16_000_000, 2));
    assert!(!can_reach(32_000_000, 16_000_001, 2));
}

#[test]
fn a_frequency_of_zero_or_beyond_the_range_cannot_be_reached() {
    assert!(!can_reach(32_000_000, 0, 1));
    assert!(!can_reach(32_000_000, 1000, 0));
    assert!(!can_reach(u32::MAX, u32::MAX, 2));
    assert!(!can_reach(u32::MAX, 0x8000_0000, 2));
    assert!(can_reach(u32::MAX, 0x7fff_ffff, 2));
    assert!(can_reach(u32::MAX, u32::MAX, 1));
}
