//! The registers that every timer tier has, as words, and the operations of
//! the 16-bit capability on them.
use vstd::prelude::*;
use crate::freq::{period_for, period_register, reachable};
use crate::low_level::{Operation, TimerState};
use crate::mode::{CenterAlignedMode, Channel, OutputCompareMode, PerChannel};
use crate::regs::{
    arr_set_value, arr_value, ccer_set_cce, ccmr_mode, ccmr_set_ocm, ccr_set_value, ccr_value,
    channel_flags, cr1_cen, cr1_cms, cr1_mode, cr1_running, cr1_set_cen, cr1_set_cms, flag,
    lemma_ccmr_modes, lemma_channel_flags, lemma_cr1_fields, lemma_cr1_mode_round_trip,
    lemma_empty_word, lemma_low_half, low_half, with_field,
};

verus! {

/// The registers of a timer that PWM generation touches.
#[derive(Clone, Copy, Debug)]
pub struct RegisterBlock {
    /// Control register 1: counter enable, counting mode, clock division.
    pub cr1: u32,
    /// The two output-compare mode registers, two channels each.
    pub ccmr: [u32; 2],
    /// The capture/compare enable register.
    pub ccer: u32,
    /// The auto-reload register, which holds the period.
    pub arr: u32,
    /// The capture/compare register of each channel.
    pub ccr: [u32; 4],
}

impl RegisterBlock {
    /// Whether the counter is enabled.
    pub open spec fn running(self) -> bool {
        cr1_running(self.cr1)
    }

    /// The counting mode that is selected.
    pub open spec fn mode(self) -> CenterAlignedMode {
        cr1_mode(self.cr1)
    }

    /// The period as a 16-bit counter sees it.
    pub open spec fn period(self) -> nat {
        low_half(self.arr) as nat
    }

    /// The compare values as a 16-bit counter sees them.
    pub open spec fn compare(self) -> PerChannel<nat> {
        PerChannel {
            ch1: low_half(self.ccr@[0]) as nat,
            ch2: low_half(self.ccr@[1]) as nat,
            ch3: low_half(self.ccr@[2]) as nat,
            ch4: low_half(self.ccr@[3]) as nat,
        }
    }

    /// The output-compare mode of each channel.
    pub open spec fn compare_mode(self) -> PerChannel<OutputCompareMode> {
        PerChannel {
            ch1: ccmr_mode(self.ccmr@[0], 0),
            ch2: ccmr_mode(self.ccmr@[0], 1),
            ch3: ccmr_mode(self.ccmr@[1], 0),
            ch4: ccmr_mode(self.ccmr@[1], 1),
        }
    }

    /// Whether the output of each channel is enabled.
    pub open spec fn channel_enabled(self) -> PerChannel<bool> {
        channel_flags(self.ccer)
    }

    /// What the 16-bit capability shows of these registers, given what they
    /// do not hold: the clock and whether it is on, the main output enable if
    /// the timer has one, and the writes that were made.
    pub open spec fn state(
        self,
        clock: nat,
        enabled: bool,
        main_output_enable: Option<bool>,
        log: Seq<Operation>,
    ) -> TimerState {
        TimerState {
            clock,
            enabled,
            main_output_enable: main_output_enable.is_some(),
            running: self.running(),
            mode: self.mode(),
            period: self.period(),
            compare: self.compare(),
            compare_mode: self.compare_mode(),
            channel_enabled: self.channel_enabled(),
            outputs_enabled: main_output_enable != Some(false),
            log,
        }
    }

    /// The registers as a reset leaves them: all empty, but for the
    /// auto-reload register, which is full as far as the counter is wide.
    pub fn after_reset(wide: bool) -> (r: Self)
        ensures
            r.cr1 == 0,
            r.ccmr@ == seq![0u32, 0u32],
            r.ccer == 0,
            r.arr == if wide { 0xffff_ffffu32 } else { 0xffffu32 },
            r.ccr@ == seq![0u32, 0u32, 0u32, 0u32],
            !r.running(),
            r.period() == 0xffff,
            r.mode() == CenterAlignedMode::EdgeAligned,
            r.compare() == PerChannel::all(0nat),
            r.compare_mode() == PerChannel::all(OutputCompareMode::Frozen),
            r.channel_enabled() == PerChannel::all(false),
    {
        let arr: u32 = if wide {
            0xffff_ffff
        } else {
            0xffff
        };
        let r = RegisterBlock { cr1: 0, ccmr: [0, 0], ccer: 0, arr, ccr: [0, 0, 0, 0] };
        proof {
            assert(low_half(arr) == 0xffff) by (bit_vector)
                requires
                    arr == 0xffff_ffffu32 || arr == 0xffffu32,
            ;
            lemma_empty_word(0, 1);
            lemma_empty_word(5, 3);
            lemma_empty_word(4, 7);
            lemma_empty_word(12, 7);
            lemma_empty_word(0, 0xffff);
            lemma_empty_word(4, 1);
            lemma_empty_word(8, 1);
            lemma_empty_word(12, 1);
            assert(r.ccmr@ =~= seq![0u32, 0u32]);
            assert(r.ccr@ =~= seq![0u32, 0u32, 0u32, 0u32]);
        }
        r
    }

    /// Reads the counter enable.
    pub fn is_tim_enabled(&self) -> (r: bool)
        ensures
            r == self.running(),
    {
        cr1_cen(self.cr1)
    }

    /// Writes the counter enable.
    pub fn set_tim_enabled(&mut self, enable: bool)
        ensures
            *final(self) == (RegisterBlock {
                cr1: with_field(old(self).cr1, 0, 1, flag(enable)),
                ..*old(self)
            }),
            final(self).running() == enable,
            final(self).mode() == old(self).mode(),
    {
        proof {
            lemma_cr1_fields(self.cr1, flag(enable));
        }
        self.cr1 = cr1_set_cen(self.cr1, enable);
    }

    /// Reads the counting mode.
    pub fn get_center_aligned_mode(&self) -> (r: CenterAlignedMode)
        ensures
            r == self.mode(),
    {
        proof {
            lemma_cr1_fields(self.cr1, 0);
        }
        cr1_cms(self.cr1)
    }

    /// Writes the counting mode and leaves the rest of control register 1 as
    /// it was.
    pub fn set_center_aligned_mode(&mut self, cms: CenterAlignedMode)
        ensures
            *final(self) == (RegisterBlock {
                cr1: with_field(old(self).cr1, 5, 3, cms.encoding() as u32),
                ..*old(self)
            }),
            final(self).mode() == cms,
            final(self).running() == old(self).running(),
    {
        proof {
            lemma_cr1_mode_round_trip(self.cr1, cms);
        }
        self.cr1 = cr1_set_cms(self.cr1, cms.bits());
    }

    /// Reads the period as a 16-bit counter sees it.
    pub fn get_max_compare_value(&self) -> (r: u16)
        ensures
            r == self.period(),
    {
        arr_value(self.arr)
    }

    /// Replaces the auto-reload register by the period for a counting rate.
    pub fn set_frequency(&mut self, clock: u32, rate: u32)
        requires
            reachable(clock as int, rate as int),
        ensures
            *final(self) == (RegisterBlock {
                arr: period_for(clock as int, rate as int) as u32,
                ..*old(self)
            }),
            final(self).period() == period_for(clock as int, rate as int),
    {
        let period: u16 = period_register(clock, rate).unwrap();
        proof {
            lemma_low_half(0, period as u32);
        }
        self.arr = arr_set_value(0, period);
    }

    /// Writes the low half of the compare register of a channel.
    pub fn set_compare_value(&mut self, channel: Channel, value: u16)
        ensures
            final(self).ccr@ == old(self).ccr@.update(
                channel.index(),
                with_field(old(self).ccr@[channel.index()], 0, 0xffff, value as u32),
            ),
            *final(self) == (RegisterBlock { ccr: final(self).ccr, ..*old(self) }),
            final(self).compare() == old(self).compare().update(channel, value as nat),
    {
        let n: usize = channel.raw();
        proof {
            lemma_low_half(self.ccr@[n as int], value as u32);
        }
        self.ccr[n] = ccr_set_value(self.ccr[n], value);
    }

    /// Reads the compare register of a channel as a 16-bit counter sees it.
    pub fn get_compare_value(&self, channel: Channel) -> (r: u16)
        ensures
            r == self.compare().at(channel),
    {
        ccr_value(self.ccr[channel.raw()])
    }

    /// Writes the output-compare mode of a channel. The first two channels
    /// share one mode register, the last two the other.
    pub fn set_output_compare_mode(&mut self, channel: Channel, mode: OutputCompareMode)
        ensures
            final(self).ccmr@ == old(self).ccmr@.update(
                channel.index() / 2,
                with_field(
                    old(self).ccmr@[channel.index() / 2],
                    (4 + 8 * (channel.index() % 2)) as u32,
                    7,
                    mode.encoding() as u32,
                ),
            ),
            *final(self) == (RegisterBlock { ccmr: final(self).ccmr, ..*old(self) }),
            final(self).compare_mode() == old(self).compare_mode().update(channel, mode),
    {
        let raw_channel: usize = channel.raw();
        let n: usize = raw_channel / 2;
        proof {
            lemma_ccmr_modes(self.ccmr@[n as int], (raw_channel % 2) as int, mode);
        }
        self.ccmr[n] = ccmr_set_ocm(self.ccmr[n], raw_channel % 2, mode.bits());
    }

    /// Writes the enable flag of the output of a channel.
    pub fn enable_channel(&mut self, channel: Channel, enable: bool)
        ensures
            *final(self) == (RegisterBlock {
                ccer: with_field(old(self).ccer, (4 * channel.index()) as u32, 1, flag(enable)),
                ..*old(self)
            }),
            final(self).channel_enabled() == old(self).channel_enabled().update(channel, enable),
    {
        proof {
            lemma_channel_flags(self.ccer, channel, enable);
        }
        self.ccer = ccer_set_cce(self.ccer, channel.raw(), enable);
    }
}

} // verus!
