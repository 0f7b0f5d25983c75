use stm32_pwm::freq::Hertz;
use stm32_pwm::low_level::{
    CaptureCompare16bitInstance, CaptureCompare32bitInstance,
    ComplementaryCaptureCompare16bitInstance,
};
use stm32_pwm::mode::{CenterAlignedMode, Channel, ClockDivision, OutputCompareMode};
use stm32_pwm::timer::{AdvancedTimer, Gp16Timer, Gp32Timer};

#[test]
fn a_general_purpose_timer_has_no_main_output_enable() {
    let mut tim = Gp16Timer::new(Hertz(32_000_000));
    let before = tim.regs;
    tim.enable_outputs(true);
    assert_eq!(tim.regs.cr1, before.cr1);
    assert_eq!(tim.regs.ccer, before.ccer);
    tim.enable_outputs(false);
    assert_eq!(tim.regs.ccmr, before.ccmr);
    assert_eq!(tim.regs.arr, before.arr);
    assert_eq!(tim.regs.ccr, before.ccr);
}

#[test]
fn the_16_bit_operations_on_a_16_bit_timer() {
    let mut tim = Gp16Timer::new(Hertz(32_000_000));
    assert_eq!(tim.frequency(), Hertz(32_000_000));
    assert!(!tim.is_tim_enabled());
    assert_eq!(tim.get_max_compare_value(), 0xffff);
    tim.set_center_aligned_mode(CenterAlignedMode::CenterAlignedMode2);
    assert_eq!(tim.get_center_aligned_mode(), CenterAlignedMode::CenterAlignedMode2);
    tim.set_frequency(Hertz(1000));
    assert_eq!(tim.get_max_compare_value(), 31999);
    tim.start();
    assert!(tim.is_tim_enabled());
    tim.set_output_compare_mode(Channel::Ch2, OutputCompareMode::PwmMode1);
    tim.enable_channel(Channel::Ch2, true);
    tim.set_compare_value(Channel::Ch2, 123);
    assert_eq!(tim.regs.cr1, 0x41);
    assert_eq!(tim.regs.ccmr, [0x6000, 0]);
    assert_eq!(tim.regs.ccer, 0x10);
    assert_eq!(tim.regs.arr, 31999);
    assert_eq!(tim.regs.ccr, [0, 123, 0, 0]);
    tim.stop();
    assert!(!tim.is_tim_enabled());
    assert_eq!(tim.regs.cr1, 0x40);
    tim.reset();
    assert_eq!(tim.regs.cr1, 0);
    assert_eq!(tim.regs.ccmr, [0, 0]);
    assert_eq!(tim.regs.ccer, 0);
    assert_eq!(tim.regs.arr, 0xffff);
    assert_eq!(tim.regs.ccr, [0, 0, 0, 0]);
    assert_eq!(tim.frequency(), Hertz(32_000_000));
}

#[test]
fn a_32_bit_timer_takes_compare_values_beyond_16_bits() {
    let mut tim = Gp32Timer::new(Hertz(84_000_000));
    CaptureCompare32bitInstance::set_compare_value(&mut tim, Channel::Ch1, u32::MAX);
    CaptureCompare32bitInstance::set_compare_value(&mut tim, Channel::Ch3, 0x0001_0000);
    assert_eq!(tim.regs.ccr, [u32::MAX, 0, 0x0001_0000, 0]);
    assert_eq!(tim.regs.get_compare_value(Channel::Ch1), 0xffff);
    assert_eq!(tim.regs.get_compare_value(Channel::Ch3), 0);
    CaptureCompare32bitInstance::set_compare_value(&mut tim, Channel::Ch1, 70_000);
    assert_eq!(tim.regs.ccr[0], 70_000);
    assert_eq!(tim.regs.get_compare_value(Channel::Ch1), 4464);
}

#[test]
fn a_32_bit_timer_shows_its_period_at_both_widths() {
    let mut tim = Gp32Timer::new(Hertz(84_000_000));
    assert_eq!(CaptureCompare32bitInstance::get_max_compare_value(&tim), 0xffff_ffff);
    assert_eq!(CaptureCompare16bitInstance::get_max_compare_value(&tim), 0xffff);
    tim.regs.arr = 0x0003_0d40;
    assert_eq!(CaptureCompare32bitInstance::get_max_compare_value(&tim), 200_000);
    assert_eq!(CaptureCompare16bitInstance::get_max_compare_value(&tim), 0x0d40);
    tim.set_frequency(Hertz(2000));
    assert_eq!(CaptureCompare32bitInstance::get_max_compare_value(&tim), 41999);
    assert_eq!(CaptureCompare16bitInstance::get_max_compare_value(&tim), 41999);
}

#[test]
fn a_16_bit_write_on_a_32_bit_timer_keeps_the_high_half() {
    let mut tim = Gp32Timer::new(Hertz(84_000_000));
    CaptureCompare32bitInstance::set_compare_value(&mut tim, Channel::Ch2, 0x1234_5678);
    CaptureCompare16bitInstance::set_compare_value(&mut tim, Channel::Ch2, 0xabcd);
    assert_eq!(tim.regs.ccr, [0, 0x1234_abcd, 0, 0]);
}

#[test]
fn the_shared_operations_of_a_32_bit_timer() {
    let mut tim = Gp32Timer::new(Hertz(84_000_000));
    CaptureCompare32bitInstance::set_output_compare_mode(
        &mut tim,
        Channel::Ch4,
        OutputCompareMode::PwmMode2,
    );
    CaptureCompare32bitInstance::enable_channel(&mut tim, Channel::Ch4, true);
    assert_eq!(tim.regs.ccmr, [0, 0x7000]);
    assert_eq!(tim.regs.ccer, 0x1000);
    CaptureCompare16bitInstance::set_output_compare_mode(
        &mut tim,
        Channel::Ch1,
        OutputCompareMode::Toggle,
    );
    CaptureCompare16bitInstance::enable_channel(&mut tim, Channel::Ch4, false);
    CaptureCompare16bitInstance::enable_channel(&mut tim, Channel::Ch1, true);
    assert_eq!(tim.regs.ccmr, [0x30, 0x7000]);
    assert_eq!(tim.regs.ccer, 0x0001);
    tim.reset();
    assert_eq!(tim.regs.arr, 0xffff_ffff);
    assert_eq!(tim.regs.ccmr, [0, 0]);
}

#[test]
fn an_advanced_timer_gates_its_outputs() {
    let mut tim = AdvancedTimer::new(Hertz(168_000_000));
    assert_eq!(tim.bdtr, 0);
    tim.enable_outputs(true);
    assert_eq!(tim.bdtr, 0x8000);
    tim.enable_outputs(false);
    assert_eq!(tim.bdtr, 0);
    tim.bdtr = 0xffff_ffff;
    tim.enable_outputs(false);
    assert_eq!(tim.bdtr, 0xffff_7fff);
}

#[test]
fn dead_time_is_the_low_byte_of_the_break_register() {
    let mut tim = AdvancedTimer::new(Hertz(168_000_000));
    tim.enable_outputs(true);
    tim.set_dead_time_value(0xab);
    assert_eq!(tim.bdtr, 0x80ab);
    tim.set_dead_time_value(0);
    assert_eq!(tim.bdtr, 0x8000);
    tim.set_dead_time_value(0xff);
    tim.enable_outputs(false);
    assert_eq!(tim.bdtr, 0x00ff);
}

#[test]
fn dead_time_clock_division_is_the_field_at_bit_8_of_control_register_1() {
    let mut tim = AdvancedTimer::new(Hertz(168_000_000));
    tim.set_center_aligned_mode(CenterAlignedMode::CenterAlignedMode3);
    tim.start();
    tim.set_dead_time_clock_division(ClockDivision::Div4);
    assert_eq!(tim.regs.cr1, 0x0261);
    tim.set_dead_time_clock_division(ClockDivision::Div2);
    assert_eq!(tim.regs.cr1, 0x0161);
    tim.set_dead_time_clock_division(ClockDivision::Div1);
    assert_eq!(tim.regs.cr1, 0x0061);
    assert!(tim.is_tim_enabled());
    assert_eq!(tim.get_center_aligned_mode(), CenterAlignedMode::CenterAlignedMode3);
}

#[test]
fn complementary_outputs_sit_two_bits_above_the_outputs() {
    let mut tim = AdvancedTimer::new(Hertz(168_000_000));
    tim.enable_complementary_channel(Channel::Ch1, true);
    assert_eq!(tim.regs.ccer, 0x0004);
    tim.enable_complementary_channel(Channel::Ch2, true);
    assert_eq!(tim.regs.ccer, 0x0044);
    tim.enable_complementary_channel(Channel::Ch3, true);
    assert_eq!(tim.regs.ccer, 0x0444);
    tim.enable_channel(Channel::Ch1, true);
    tim.enable_channel(Channel::Ch4, true);
    assert_eq!(tim.regs.ccer, 0x1445);
    tim.enable_complementary_channel(Channel::Ch2, false);
    assert_eq!(tim.regs.ccer, 0x1405);
    tim.enable_channel(Channel::Ch1, false);
    assert_eq!(tim.regs.ccer, 0x1404);
}

#[test]
fn the_16_bit_operations_on_an_advanced_timer() {
    let mut tim = AdvancedTimer::new(Hertz(168_000_000));
    tim.set_dead_time_value(7);
    tim.set_frequency(Hertz(20_000));
    tim.set_compare_value(Channel::Ch3, 4200);
    tim.set_output_compare_mode(Channel::Ch3, OutputCompareMode::PwmMode1);
    tim.enable_channel(Channel::Ch3, true);
    tim.start();
    assert_eq!(tim.get_max_compare_value(), 8399);
    assert_eq!(tim.regs.ccr, [0, 0, 4200, 0]);
    assert_eq!(tim.regs.ccmr, [0, 0x60]);
    assert_eq!(tim.regs.ccer, 0x0100);
    assert_eq!(tim.regs.cr1, 1);
    assert_eq!(tim.bdtr, 7);
    tim.reset();
    assert_eq!(tim.bdtr, 0);
    assert_eq!(tim.regs.cr1, 0);
    assert_eq!(tim.regs.arr, 0xffff);
    assert_eq!(tim.frequency(), Hertz(168_000_000));
}

#[test]
fn the_peripheral_clock_is_off_until_it_is_enabled_and_then_stays_on() {
    let mut tim = Gp16Timer::new(Hertz(32_000_000));
    assert!(!tim.enabled);
    tim.enable();
    assert!(tim.enabled);
    tim.start();
    tim.reset();
    assert!(tim.enabled);
    assert_eq!(tim.regs.cr1, 0);
    let mut tim = Gp32Timer::new(Hertz(84_000_000));
    assert!(!tim.enabled);
    tim.enable();
    tim.reset();
    assert!(tim.enabled);
    let mut tim = AdvancedTimer::new(Hertz(168_000_000));
    assert!(!tim.enabled);
    tim.enable();
    tim.reset();
    assert!(tim.enabled);
    assert_eq!(tim.bdtr, 0);
}
