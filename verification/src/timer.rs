//! The three timer tiers, each as the registers it has.
use vstd::prelude::*;
use crate::block::RegisterBlock;
use crate::freq::Hertz;
use crate::low_level::{
    CaptureCompare16bitInstance, CaptureCompare32bitInstance,
    ComplementaryCaptureCompare16bitInstance, ComplementaryState, Operation, TimerState,
};
use crate::mode::{CenterAlignedMode, Channel, ClockDivision, OutputCompareMode, PerChannel};
use crate::regs::{
    bdtr_dead_time, bdtr_outputs, bdtr_set_dtg, bdtr_set_moe, ccer_adv_set_cce,
    ccer_adv_set_ccne, complementary_flags, cr1_division, cr1_set_ckd, flag, lemma_bdtr_fields,
    lemma_channel_flags, lemma_complementary_flags, lemma_cr1_fields, lemma_empty_word,
    lemma_low_half_is_remainder,
};

verus! {

/// A general-purpose timer with a 16-bit counter.
pub struct Gp16Timer {
    /// The rate at which the counter is fed.
    pub clock: Hertz,
    /// Whether the peripheral clock is on.
    pub enabled: bool,
    pub regs: RegisterBlock,
    /// The writes that were made to the timer, the oldest first.
    pub log: Ghost<Seq<Operation>>,
}

impl Gp16Timer {
    /// A timer in its state after reset.
    pub fn new(clock: Hertz) -> (r: Self)
        ensures
            r.clock == clock,
            r@ == TimerState::after_reset(clock.0 as nat, false),
    {
        Gp16Timer {
            clock,
            enabled: false,
            regs: RegisterBlock::after_reset(false),
            log: Ghost(Seq::empty()),
        }
    }
}

impl CaptureCompare16bitInstance for Gp16Timer {
    open spec fn view(&self) -> TimerState {
        self.regs.state(self.clock.0 as nat, self.enabled, None, self.log@)
    }

    fn frequency(&self) -> (r: Hertz) {
        self.clock
    }

    fn enable(&mut self) {
        self.enabled = true;
        self.log = Ghost(self.log@.push(Operation::Enable));
    }

    fn reset(&mut self) {
        self.regs = RegisterBlock::after_reset(false);
        self.log = Ghost(self.log@.push(Operation::Reset));
    }

    fn start(&mut self) {
        self.regs.set_tim_enabled(true);
        self.log = Ghost(self.log@.push(Operation::Start));
    }

    fn stop(&mut self) {
        self.regs.set_tim_enabled(false);
        self.log = Ghost(self.log@.push(Operation::Stop));
    }

    fn set_frequency(&mut self, frequency: Hertz) {
        self.regs.set_frequency(self.clock.0, frequency.0);
        self.log = Ghost(self.log@.push(Operation::SetFrequency(frequency.0 as int)));
    }

    fn enable_outputs(&mut self, enable: bool) {
        self.log = Ghost(self.log@.push(Operation::EnableOutputs(enable)));
    }

    fn set_output_compare_mode(&mut self, channel: Channel, mode: OutputCompareMode) {
        self.regs.set_output_compare_mode(channel, mode);
        self.log = Ghost(self.log@.push(Operation::SetOutputCompareMode(channel, mode)));
    }

    fn enable_channel(&mut self, channel: Channel, enable: bool) {
        self.regs.enable_channel(channel, enable);
        self.log = Ghost(self.log@.push(Operation::EnableChannel(channel, enable)));
    }

    fn set_compare_value(&mut self, channel: Channel, value: u16) {
        self.regs.set_compare_value(channel, value);
        self.log = Ghost(self.log@.push(Operation::SetCompareValue(channel, value as nat)));
    }

    fn get_max_compare_value(&self) -> (r: u16) {
        self.regs.get_max_compare_value()
    }

    fn is_tim_enabled(&mut self) -> (r: bool) {
        self.regs.is_tim_enabled()
    }

    fn set_center_aligned_mode(&mut self, cms: CenterAlignedMode) {
        self.regs.set_center_aligned_mode(cms);
        self.log = Ghost(self.log@.push(Operation::SetCenterAlignedMode(cms)));
    }

    fn get_center_aligned_mode(&self) -> (r: CenterAlignedMode) {
        self.regs.get_center_aligned_mode()
    }
}

/// A general-purpose timer with a 32-bit counter.
pub struct Gp32Timer {
    /// The rate at which the counter is fed.
    pub clock: Hertz,
    /// Whether the peripheral clock is on.
    pub enabled: bool,
    pub regs: RegisterBlock,
    /// The writes that were made to the timer, the oldest first.
    pub log: Ghost<Seq<Operation>>,
}

impl Gp32Timer {
    /// A timer in its state after reset.
    pub fn new(clock: Hertz) -> (r: Self)
        ensures
            r.clock == clock,
            r@ == TimerState::after_reset(clock.0 as nat, false),
            r.wide() == (TimerState { period: 0xffff_ffff, ..r@ }),
    {
        Gp32Timer {
            clock,
            enabled: false,
            regs: RegisterBlock::after_reset(true),
            log: Ghost(Seq::empty()),
        }
    }

    /// The compare registers at their full width.
    pub open spec fn wide_compare(self) -> PerChannel<nat> {
        PerChannel {
            ch1: self.regs.ccr@[0] as nat,
            ch2: self.regs.ccr@[1] as nat,
            ch3: self.regs.ccr@[2] as nat,
            ch4: self.regs.ccr@[3] as nat,
        }
    }

    /// The 16-bit capability shows the low half of what the 32-bit capability
    /// shows.
    pub proof fn lemma_views_agree(self)
        ensures
            self@ == self.wide().narrow(),
    {
        lemma_low_half_is_remainder(self.regs.arr);
        lemma_low_half_is_remainder(self.regs.ccr@[0]);
        lemma_low_half_is_remainder(self.regs.ccr@[1]);
        lemma_low_half_is_remainder(self.regs.ccr@[2]);
        lemma_low_half_is_remainder(self.regs.ccr@[3]);
    }
}

impl CaptureCompare16bitInstance for Gp32Timer {
    open spec fn view(&self) -> TimerState {
        self.regs.state(self.clock.0 as nat, self.enabled, None, self.log@)
    }

    fn frequency(&self) -> (r: Hertz) {
        self.clock
    }

    fn enable(&mut self)
        ensures
            final(self).wide().period == old(self).wide().period,
            final(self).wide().compare == old(self).wide().compare,
    {
        self.enabled = true;
        self.log = Ghost(self.log@.push(Operation::Enable));
    }

    fn reset(&mut self)
        ensures
            final(self).wide().period == 0xffff_ffff,
            final(self).wide().compare == PerChannel::all(0nat),
    {
        self.regs = RegisterBlock::after_reset(true);
        self.log = Ghost(self.log@.push(Operation::Reset));
    }

    fn start(&mut self)
        ensures
            final(self).wide().period == old(self).wide().period,
            final(self).wide().compare == old(self).wide().compare,
    {
        self.regs.set_tim_enabled(true);
        self.log = Ghost(self.log@.push(Operation::Start));
    }

    fn stop(&mut self)
        ensures
            final(self).wide().period == old(self).wide().period,
            final(self).wide().compare == old(self).wide().compare,
    {
        self.regs.set_tim_enabled(false);
        self.log = Ghost(self.log@.push(Operation::Stop));
    }

    /// The period is written as a 16-bit value: the high half of the
    /// auto-reload register is left empty.
    fn set_frequency(&mut self, frequency: Hertz)
        ensures
            final(self).wide().period == final(self)@.period,
            final(self).wide().compare == old(self).wide().compare,
    {
        self.regs.set_frequency(self.clock.0, frequency.0);
        self.log = Ghost(self.log@.push(Operation::SetFrequency(frequency.0 as int)));
    }

    fn enable_outputs(&mut self, enable: bool)
        ensures
            final(self).regs == old(self).regs,
    {
        self.log = Ghost(self.log@.push(Operation::EnableOutputs(enable)));
    }

    fn set_output_compare_mode(&mut self, channel: Channel, mode: OutputCompareMode)
        ensures
            final(self).wide().period == old(self).wide().period,
            final(self).wide().compare == old(self).wide().compare,
    {
        self.regs.set_output_compare_mode(channel, mode);
        self.log = Ghost(self.log@.push(Operation::SetOutputCompareMode(channel, mode)));
    }

    fn enable_channel(&mut self, channel: Channel, enable: bool)
        ensures
            final(self).wide().period == old(self).wide().period,
            final(self).wide().compare == old(self).wide().compare,
    {
        self.regs.enable_channel(channel, enable);
        self.log = Ghost(self.log@.push(Operation::EnableChannel(channel, enable)));
    }

    /// The value goes to the low half of the compare register; the high half
    /// stays as it was.
    fn set_compare_value(&mut self, channel: Channel, value: u16)
        ensures
            final(self).wide().period == old(self).wide().period,
            final(self).wide().compare == old(self).wide().compare.update(
                channel,
                (old(self).wide().compare.at(channel) / 0x1_0000) * 0x1_0000 + value as nat,
            ),
    {
        proof {
            lemma_low_half_is_remainder(self.regs.ccr@[channel.index()]);
        }
        self.regs.set_compare_value(channel, value);
        self.log = Ghost(self.log@.push(Operation::SetCompareValue(channel, value as nat)));
    }

    fn get_max_compare_value(&self) -> (r: u16) {
        self.regs.get_max_compare_value()
    }

    fn is_tim_enabled(&mut self) -> (r: bool)
        ensures
            *final(self) == *old(self),
    {
        self.regs.is_tim_enabled()
    }

    fn set_center_aligned_mode(&mut self, cms: CenterAlignedMode)
        ensures
            final(self).wide().period == old(self).wide().period,
            final(self).wide().compare == old(self).wide().compare,
    {
        self.regs.set_center_aligned_mode(cms);
        self.log = Ghost(self.log@.push(Operation::SetCenterAlignedMode(cms)));
    }

    fn get_center_aligned_mode(&self) -> (r: CenterAlignedMode) {
        self.regs.get_center_aligned_mode()
    }
}

impl CaptureCompare32bitInstance for Gp32Timer {
    open spec fn wide(&self) -> TimerState {
        TimerState { period: self.regs.arr as nat, compare: self.wide_compare(), ..self@ }
    }

    fn set_output_compare_mode(&mut self, channel: Channel, mode: OutputCompareMode) {
        self.regs.set_output_compare_mode(channel, mode);
        self.log = Ghost(self.log@.push(Operation::SetOutputCompareMode(channel, mode)));
    }

    fn enable_channel(&mut self, channel: Channel, enable: bool) {
        self.regs.enable_channel(channel, enable);
        self.log = Ghost(self.log@.push(Operation::EnableChannel(channel, enable)));
    }

    fn set_compare_value(&mut self, channel: Channel, value: u32) {
        self.regs.ccr[channel.raw()] = value;
        self.log = Ghost(self.log@.push(Operation::SetCompareValue(channel, value as nat)));
    }

    fn get_max_compare_value(&self) -> (r: u32) {
        self.regs.arr
    }
}

/// An advanced timer: a 16-bit counter, a main output enable, and
/// complementary outputs with dead-time insertion on its first three channels.
pub struct AdvancedTimer {
    /// The rate at which the counter is fed.
    pub clock: Hertz,
    /// Whether the peripheral clock is on.
    pub enabled: bool,
    pub regs: RegisterBlock,
    /// The break and dead-time register.
    pub bdtr: u32,
    /// The writes that were made to the timer, the oldest first.
    pub log: Ghost<Seq<Operation>>,
}

impl AdvancedTimer {
    /// A timer in its state after reset.
    pub fn new(clock: Hertz) -> (r: Self)
        ensures
            r.clock == clock,
            r@ == TimerState::after_reset(clock.0 as nat, true),
            r.complementary() == ComplementaryState::after_reset(),
    {
        proof {
            lemma_empty_word(15, 1);
            lemma_empty_word(0, 0xff);
            lemma_empty_word(8, 3);
            lemma_empty_word(2, 1);
            lemma_empty_word(6, 1);
            lemma_empty_word(10, 1);
        }
        AdvancedTimer {
            clock,
            enabled: false,
            regs: RegisterBlock::after_reset(false),
            bdtr: 0,
            log: Ghost(Seq::empty()),
        }
    }
}

impl CaptureCompare16bitInstance for AdvancedTimer {
    open spec fn view(&self) -> TimerState {
        self.regs.state(
            self.clock.0 as nat,
            self.enabled,
            Some(bdtr_outputs(self.bdtr)),
            self.log@,
        )
    }

    fn frequency(&self) -> (r: Hertz) {
        self.clock
    }

    fn enable(&mut self)
        ensures
            final(self).complementary() == old(self).complementary(),
    {
        self.enabled = true;
        self.log = Ghost(self.log@.push(Operation::Enable));
    }

    fn reset(&mut self)
        ensures
            final(self).complementary() == ComplementaryState::after_reset(),
    {
        proof {
            lemma_empty_word(15, 1);
            lemma_empty_word(0, 0xff);
            lemma_empty_word(8, 3);
            lemma_empty_word(2, 1);
            lemma_empty_word(6, 1);
            lemma_empty_word(10, 1);
        }
        self.regs = RegisterBlock::after_reset(false);
        self.bdtr = 0;
        self.log = Ghost(self.log@.push(Operation::Reset));
    }

    fn start(&mut self)
        ensures
            final(self).complementary() == old(self).complementary(),
    {
        proof {
            lemma_cr1_fields(self.regs.cr1, flag(true));
        }
        self.regs.set_tim_enabled(true);
        self.log = Ghost(self.log@.push(Operation::Start));
    }

    fn stop(&mut self)
        ensures
            final(self).complementary() == old(self).complementary(),
    {
        proof {
            lemma_cr1_fields(self.regs.cr1, flag(false));
        }
        self.regs.set_tim_enabled(false);
        self.log = Ghost(self.log@.push(Operation::Stop));
    }

    fn set_frequency(&mut self, frequency: Hertz)
        ensures
            final(self).complementary() == old(self).complementary(),
    {
        self.regs.set_frequency(self.clock.0, frequency.0);
        self.log = Ghost(self.log@.push(Operation::SetFrequency(frequency.0 as int)));
    }

    fn enable_outputs(&mut self, enable: bool)
        ensures
            final(self).complementary() == old(self).complementary(),
    {
        proof {
            lemma_bdtr_fields(self.bdtr, flag(enable));
        }
        self.bdtr = bdtr_set_moe(self.bdtr, enable);
        self.log = Ghost(self.log@.push(Operation::EnableOutputs(enable)));
    }

    fn set_output_compare_mode(&mut self, channel: Channel, mode: OutputCompareMode)
        ensures
            final(self).complementary() == old(self).complementary(),
    {
        self.regs.set_output_compare_mode(channel, mode);
        self.log = Ghost(self.log@.push(Operation::SetOutputCompareMode(channel, mode)));
    }

    fn enable_channel(&mut self, channel: Channel, enable: bool)
        ensures
            final(self).complementary() == old(self).complementary(),
    {
        proof {
            lemma_channel_flags(self.regs.ccer, channel, enable);
            lemma_complementary_flags(self.regs.ccer, channel, enable);
        }
        self.regs.ccer = ccer_adv_set_cce(self.regs.ccer, channel.raw(), enable);
        self.log = Ghost(self.log@.push(Operation::EnableChannel(channel, enable)));
    }

    fn set_compare_value(&mut self, channel: Channel, value: u16)
        ensures
            final(self).complementary() == old(self).complementary(),
    {
        self.regs.set_compare_value(channel, value);
        self.log = Ghost(self.log@.push(Operation::SetCompareValue(channel, value as nat)));
    }

    fn get_max_compare_value(&self) -> (r: u16) {
        self.regs.get_max_compare_value()
    }

    fn is_tim_enabled(&mut self) -> (r: bool)
        ensures
            *final(self) == *old(self),
    {
        self.regs.is_tim_enabled()
    }

    fn set_center_aligned_mode(&mut self, cms: CenterAlignedMode)
        ensures
            final(self).complementary() == old(self).complementary(),
    {
        proof {
            lemma_cr1_fields(self.regs.cr1, cms.encoding() as u32);
        }
        self.regs.set_center_aligned_mode(cms);
        self.log = Ghost(self.log@.push(Operation::SetCenterAlignedMode(cms)));
    }

    fn get_center_aligned_mode(&self) -> (r: CenterAlignedMode) {
        self.regs.get_center_aligned_mode()
    }
}

impl ComplementaryCaptureCompare16bitInstance for AdvancedTimer {
    open spec fn complementary(&self) -> ComplementaryState {
        ComplementaryState {
            clock_division: ClockDivision::decode(cr1_division(self.regs.cr1) as u8),
            dead_time: bdtr_dead_time(self.bdtr) as nat,
            complementary_enabled: complementary_flags(self.regs.ccer),
        }
    }

    open spec fn has_complementary_output(channel: Channel) -> bool {
        channel != Channel::Ch4
    }

    fn set_dead_time_clock_division(&mut self, value: ClockDivision) {
        proof {
            lemma_cr1_fields(self.regs.cr1, value.encoding() as u32);
        }
        self.regs.cr1 = cr1_set_ckd(self.regs.cr1, value.bits());
        self.log = Ghost(self.log@.push(Operation::SetDeadTimeClockDivision(value)));
    }

    fn set_dead_time_value(&mut self, value: u8) {
        proof {
            lemma_bdtr_fields(self.bdtr, value as u32);
        }
        self.bdtr = bdtr_set_dtg(self.bdtr, value);
        self.log = Ghost(self.log@.push(Operation::SetDeadTimeValue(value as nat)));
    }

    fn enable_complementary_channel(&mut self, channel: Channel, enable: bool) {
        proof {
            lemma_complementary_flags(self.regs.ccer, channel, enable);
        }
        self.regs.ccer = ccer_adv_set_ccne(self.regs.ccer, channel.raw(), enable);
        self.log = Ghost(self.log@.push(Operation::EnableComplementaryChannel(channel, enable)));
    }
}

} // verus!
