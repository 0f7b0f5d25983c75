use stm32_pwm::mode::{CenterAlignedMode, Channel, ClockDivision, OutputCompareMode};
use stm32_pwm::simple_pwm::{
    CmsAlignMode, CmsCenterAlignedMode1, CmsCenterAlignedMode2, CmsCenterAlignedMode3,
    CmsEdgeAlignedMode,
};

#[test]
fn channels_map_to_zero_based_indices() {
    assert_eq!(Channel::Ch1.raw(), 0);
    assert_eq!(Channel::Ch2.raw(), 1);
    assert_eq!(Channel::Ch3.raw(), 2);
    assert_eq!(Channel::Ch4.raw(), 3);
}

#[test]
fn output_compare_modes_have_their_field_values() {
    assert_eq!(OutputCompareMode::Frozen.bits(), 0);
    assert_eq!(OutputCompareMode::ActiveOnMatch.bits(), 1);
    assert_eq!(OutputCompareMode::InactiveOnMatch.bits(), 2);
    assert_eq!(OutputCompareMode::Toggle.bits(), 3);
    assert_eq!(OutputCompareMode::ForceInactive.bits(), 4);
    assert_eq!(OutputCompareMode::ForceActive.bits(), 5);
    assert_eq!(OutputCompareMode::PwmMode1.bits(), 6);
    assert_eq!(OutputCompareMode::PwmMode2.bits(), 7);
}

#[test]
fn counting_modes_have_their_field_values() {
    assert_eq!(CenterAlignedMode::EdgeAligned.bits(), 0);
    assert_eq!(CenterAlignedMode::CenterAlignedMode1.bits(), 1);
    assert_eq!(CenterAlignedMode::CenterAlignedMode2.bits(), 2);
    assert_eq!(CenterAlignedMode::CenterAlignedMode3.bits(), 3);
}

#[test]
fn edge_aligned_scales_by_one_and_center_aligned_by_two() {
    assert_eq!(CenterAlignedMode::EdgeAligned.freq_factor(), 1);
    assert_eq!(CenterAlignedMode::CenterAlignedMode1.freq_factor(), 2);
    assert_eq!(CenterAlignedMode::CenterAlignedMode2.freq_factor(), 2);
    assert_eq!(CenterAlignedMode::CenterAlignedMode3.freq_factor(), 2);
}

#[test]
fn clock_divisions_have_their_field_values() {
    assert_eq!(ClockDivision::Div1.bits(), 0);
    assert_eq!(ClockDivision::Div2.bits(), 1);
    assert_eq!(ClockDivision::Div4.bits(), 2);
}

#[test]
fn typed_modes_name_their_mode_and_factor() {
    assert_eq!(CmsEdgeAlignedMode::get_mode(), CenterAlignedMode::EdgeAligned);
    assert_eq!(CmsCenterAlignedMode1::get_mode(), CenterAlignedMode::CenterAlignedMode1);
    assert_eq!(CmsCenterAlignedMode2::get_mode(), CenterAlignedMode::CenterAlignedMode2);
    assert_eq!(CmsCenterAlignedMode3::get_mode(), CenterAlignedMode::CenterAlignedMode3);
    assert_eq!(CmsEdgeAlignedMode::freq_factor(), 1);
    assert_eq!(CmsCenterAlignedMode1::freq_factor(), 2);
    assert_eq!(CmsCenterAlignedMode2::freq_factor(), 2);
    assert_eq!(CmsCenterAlignedMode3::freq_factor(), 2);
}
