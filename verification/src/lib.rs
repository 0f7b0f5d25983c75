//! Pulse-width modulation on the timers of STM32 microcontrollers.
//!
//! The timers come in three tiers: general-purpose timers with a 16-bit
//! counter, general-purpose timers with a 32-bit counter, and advanced timers
//! with complementary outputs and dead-time insertion. [`simple_pwm`] drives
//! any of them through the 16-bit capability of [`low_level`]: it sets the
//! output frequency, the duty of each of the four channels, and the counting
//! mode, and keeps the output frequency when the counting mode changes.
//!
//! A timer is held as the words of its registers ([`block`], [`timer`]). The
//! fields in those words are read and written by the register types of
//! `stm32_metapac` ([`regs`]); the arithmetic between frequency and period is
//! in [`freq`].
pub mod block;
pub mod freq;
pub mod low_level;
pub mod mode;
pub mod regs;
pub mod simple_pwm;
pub mod timer;

pub use freq::Hertz;
pub use low_level::{
    CaptureCompare16bitInstance, CaptureCompare32bitInstance,
    ComplementaryCaptureCompare16bitInstance,
};
pub use mode::{CenterAlignedMode, Channel, ClockDivision, OutputCompareMode};
