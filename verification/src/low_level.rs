//! What a timer must offer to be driven as a PWM source, tier by tier.
//!
//! Every timer offers the 16-bit capability. A wide general-purpose timer
//! offers 32-bit compare values beside it, an advanced timer complementary
//! outputs with dead-time insertion on top of it. These are the raw
//! operations under the driver: each is one register access and checks
//! nothing at run time. What has to hold before one of them is part of its
//! contract, and it is the caller who answers for it.
use vstd::prelude::*;
use crate::freq::{effective_frequency, period_for, reachable, Hertz};
use crate::mode::{CenterAlignedMode, Channel, ClockDivision, OutputCompareMode, PerChannel};

verus! {

/// A write that one of the capabilities makes to a timer.
pub enum Operation {
    /// The peripheral clock is switched on.
    Enable,
    Reset,
    Start,
    Stop,
    /// The period is set for this many sweeps per second.
    SetFrequency(int),
    EnableOutputs(bool),
    SetOutputCompareMode(Channel, OutputCompareMode),
    EnableChannel(Channel, bool),
    SetCompareValue(Channel, nat),
    SetCenterAlignedMode(CenterAlignedMode),
    SetDeadTimeClockDivision(ClockDivision),
    SetDeadTimeValue(nat),
    EnableComplementaryChannel(Channel, bool),
}

/// What the 16-bit capability shows of a timer.
pub struct TimerState {
    /// Ticks per second that the counter is fed with.
    pub clock: nat,
    /// Whether the peripheral clock is on. Nothing switches it off again.
    pub enabled: bool,
    /// Whether the timer has a main output enable. General-purpose timers
    /// have none: their output stage is always on.
    pub main_output_enable: bool,
    /// Whether the counter is counting.
    pub running: bool,
    /// The counting mode.
    pub mode: CenterAlignedMode,
    /// The period register: the counter is reloaded when it gets there.
    pub period: nat,
    /// The compare register of each channel.
    pub compare: PerChannel<nat>,
    /// The output-compare mode of each channel.
    pub compare_mode: PerChannel<OutputCompareMode>,
    /// Whether the output of each channel is enabled.
    pub channel_enabled: PerChannel<bool>,
    /// Whether the output stage as a whole is enabled.
    pub outputs_enabled: bool,
    /// The writes that were made to the timer, the oldest first.
    pub log: Seq<Operation>,
}

impl TimerState {
    /// A timer to which nothing has been written: its peripheral clock is
    /// off and its registers are as a reset leaves them. It is stopped,
    /// counting up, with the longest period, every channel frozen and
    /// disabled. The output stage is disabled where the timer has a main
    /// output enable, and on where it has none.
    pub open spec fn after_reset(clock: nat, main_output_enable: bool) -> TimerState {
        TimerState {
            clock,
            enabled: false,
            main_output_enable,
            running: false,
            mode: CenterAlignedMode::EdgeAligned,
            period: 0xffff,
            compare: PerChannel::all(0nat),
            compare_mode: PerChannel::all(OutputCompareMode::Frozen),
            channel_enabled: PerChannel::all(false),
            outputs_enabled: !main_output_enable,
            log: Seq::empty(),
        }
    }

    /// The same timer with one more write in its log.
    pub open spec fn logged(self, operation: Operation) -> TimerState {
        TimerState { log: self.log.push(operation), ..self }
    }

    /// The timer after its peripheral clock has been switched on.
    pub open spec fn clocked(self) -> TimerState {
        (TimerState { enabled: true, ..self }).logged(Operation::Enable)
    }

    /// The timer after a reset, which leaves the peripheral clock as it is.
    pub open spec fn reset(self) -> TimerState {
        (TimerState {
            enabled: self.enabled,
            log: self.log,
            ..TimerState::after_reset(self.clock, self.main_output_enable)
        }).logged(Operation::Reset)
    }

    /// The timer after its counter has been started.
    pub open spec fn started(self) -> TimerState {
        (TimerState { running: true, ..self }).logged(Operation::Start)
    }

    /// The timer after its counter has been stopped.
    pub open spec fn stopped(self) -> TimerState {
        (TimerState { running: false, ..self }).logged(Operation::Stop)
    }

    /// The timer after its period has been set for `rate` sweeps per second.
    pub open spec fn at_rate(self, rate: int) -> TimerState {
        (TimerState { period: period_for(self.clock as int, rate) as nat, ..self }).logged(
            Operation::SetFrequency(rate),
        )
    }

    /// The timer after its main output enable has been written. Where it has
    /// none the output stage stays on.
    pub open spec fn with_outputs(self, enable: bool) -> TimerState {
        (TimerState { outputs_enabled: enable || !self.main_output_enable, ..self }).logged(
            Operation::EnableOutputs(enable),
        )
    }

    /// The timer after the output-compare mode of a channel has been written.
    pub open spec fn with_compare_mode(
        self,
        channel: Channel,
        mode: OutputCompareMode,
    ) -> TimerState {
        (TimerState { compare_mode: self.compare_mode.update(channel, mode), ..self }).logged(
            Operation::SetOutputCompareMode(channel, mode),
        )
    }

    /// The timer after the output of a channel has been enabled or disabled.
    pub open spec fn with_channel(self, channel: Channel, enable: bool) -> TimerState {
        (TimerState {
            channel_enabled: self.channel_enabled.update(channel, enable),
            ..self
        }).logged(Operation::EnableChannel(channel, enable))
    }

    /// The timer after the compare register of a channel has been written.
    pub open spec fn with_compare(self, channel: Channel, value: nat) -> TimerState {
        (TimerState { compare: self.compare.update(channel, value), ..self }).logged(
            Operation::SetCompareValue(channel, value),
        )
    }

    /// The timer after its counting mode has been written.
    pub open spec fn in_mode(self, mode: CenterAlignedMode) -> TimerState {
        (TimerState { mode, ..self }).logged(Operation::SetCenterAlignedMode(mode))
    }

    /// What a 16-bit counter sees of these values: the low half of the period
    /// and of each compare value.
    pub open spec fn narrow(self) -> TimerState {
        TimerState {
            period: self.period % 0x1_0000,
            compare: PerChannel {
                ch1: self.compare.ch1 % 0x1_0000,
                ch2: self.compare.ch2 % 0x1_0000,
                ch3: self.compare.ch3 % 0x1_0000,
                ch4: self.compare.ch4 % 0x1_0000,
            },
            ..self
        }
    }

    /// The frequency of the outputs.
    pub open spec fn frequency(self) -> int {
        effective_frequency(self.clock as int, self.period as int, self.mode.scale() as int)
    }

    /// The counter ticks that make one output period.
    pub open spec fn ticks(self) -> int {
        (self.period + 1) * (self.mode.scale() as int)
    }

    /// Whether the outputs can be brought to `frequency` in the counting mode
    /// that the timer is in.
    pub open spec fn reaches(self, frequency: int) -> bool {
        reachable(self.clock as int, frequency * self.mode.scale())
    }

    /// The timer after its period has been set for an output frequency in the
    /// counting mode that it is in.
    pub open spec fn with_frequency(self, frequency: int) -> TimerState {
        self.at_rate(frequency * self.mode.scale())
    }

    /// The timer after it has been set up for PWM generation. The order of
    /// the writes is part of it: the counting mode is written while the
    /// counter stands, and the output stage is enabled once it runs.
    pub open spec fn set_up(self, mode: CenterAlignedMode, frequency: int) -> TimerState {
        self.clocked().reset().in_mode(mode).with_frequency(frequency).started().with_outputs(
            true,
        ).with_compare_mode(Channel::Ch1, OutputCompareMode::PwmMode1).with_compare_mode(
            Channel::Ch2,
            OutputCompareMode::PwmMode1,
        ).with_compare_mode(Channel::Ch3, OutputCompareMode::PwmMode1).with_compare_mode(
            Channel::Ch4,
            OutputCompareMode::PwmMode1,
        )
    }

    /// Whether the timer can go over to another counting mode and keep its
    /// output frequency: the mode needs as many sweeps as the one it is in, or
    /// the frequency that the outputs have can be reached in it.
    pub open spec fn can_switch(self, mode: CenterAlignedMode) -> bool {
        mode.scale() != self.mode.scale() ==> (TimerState { mode, ..self }).reaches(
            self.frequency(),
        )
    }

    /// The timer after it has gone over to another counting mode: the counter
    /// is stopped, the mode written, the period set for the frequency that the
    /// outputs had if the mode needs another number of sweeps for an output
    /// period, and the counter started.
    pub open spec fn switched(self, mode: CenterAlignedMode) -> TimerState {
        let held = self.stopped().in_mode(mode);
        if mode.scale() == self.mode.scale() {
            held.started()
        } else {
            held.with_frequency(self.frequency()).started()
        }
    }
}

/// The capability of every timer that can drive PWM outputs: four channels
/// with 16-bit compare values under one counter with a 16-bit period.
pub trait CaptureCompare16bitInstance: Sized {
    /// The timer as this capability shows it.
    spec fn view(&self) -> TimerState;

    /// The rate at which the counter is fed.
    fn frequency(&self) -> (r: Hertz)
        ensures
            r.0 == self@.clock,
    ;

    /// Switches the peripheral clock on.
    fn enable(&mut self)
        ensures
            final(self)@ == old(self)@.clocked(),
    ;

    /// Puts the registers of the timer into their state after reset.
    fn reset(&mut self)
        ensures
            final(self)@ == old(self)@.reset(),
    ;

    /// Starts the counter.
    fn start(&mut self)
        ensures
            final(self)@ == old(self)@.started(),
    ;

    /// Stops the counter.
    fn stop(&mut self)
        ensures
            final(self)@ == old(self)@.stopped(),
    ;

    /// Sets the period so that the counter sweeps `frequency` times per second.
    fn set_frequency(&mut self, frequency: Hertz)
        requires
            reachable(old(self)@.clock as int, frequency.0 as int),
        ensures
            final(self)@ == old(self)@.at_rate(frequency.0 as int),
    ;

    /// Global output enable. Does not do anything on a timer without a main
    /// output enable.
    fn enable_outputs(&mut self, enable: bool)
        ensures
            final(self)@ == old(self)@.with_outputs(enable),
    ;

    /// Writes the output-compare mode of a channel.
    fn set_output_compare_mode(&mut self, channel: Channel, mode: OutputCompareMode)
        ensures
            final(self)@ == old(self)@.with_compare_mode(channel, mode),
    ;

    /// Enables or disables the output of a channel.
    fn enable_channel(&mut self, channel: Channel, enable: bool)
        ensures
            final(self)@ == old(self)@.with_channel(channel, enable),
    ;

    /// Writes the compare register of a channel. The value is not held
    /// against the period.
    fn set_compare_value(&mut self, channel: Channel, value: u16)
        ensures
            final(self)@ == old(self)@.with_compare(channel, value as nat),
    ;

    /// The period register: the resolution of the compare values.
    fn get_max_compare_value(&self) -> (r: u16)
        ensures
            r == self@.period,
    ;

    /// Whether the counter is counting.
    fn is_tim_enabled(&mut self) -> (r: bool)
        ensures
            r == old(self)@.running,
            final(self)@ == old(self)@,
    ;

    /// Selects the counting mode. The counter must be stopped: a change while
    /// it counts leaves it with counts that belong to neither mode.
    fn set_center_aligned_mode(&mut self, cms: CenterAlignedMode)
        requires
            !old(self)@.running,
        ensures
            final(self)@ == old(self)@.in_mode(cms),
    ;

    /// The counting mode that is selected.
    fn get_center_aligned_mode(&self) -> (r: CenterAlignedMode)
        ensures
            r == self@.mode,
    ;
}

/// The capability of a general-purpose timer with a 32-bit counter: the
/// compare values and the period at their full width. Such a timer offers the
/// 16-bit capability too, which shows the low half of each of them.
pub trait CaptureCompare32bitInstance: Sized {
    /// The timer with its period and compare values at their full width.
    spec fn wide(&self) -> TimerState;

    /// Writes the output-compare mode of a channel.
    fn set_output_compare_mode(&mut self, channel: Channel, mode: OutputCompareMode)
        ensures
            final(self).wide() == old(self).wide().with_compare_mode(channel, mode),
    ;

    /// Enables or disables the output of a channel.
    fn enable_channel(&mut self, channel: Channel, enable: bool)
        ensures
            final(self).wide() == old(self).wide().with_channel(channel, enable),
    ;

    /// Writes the compare register of a channel at its full width. The value
    /// is not held against the period.
    fn set_compare_value(&mut self, channel: Channel, value: u32)
        ensures
            final(self).wide() == old(self).wide().with_compare(channel, value as nat),
    ;

    /// The period register at its full width.
    fn get_max_compare_value(&self) -> (r: u32)
        ensures
            r == self.wide().period,
    ;
}

/// What the complementary capability shows of a timer beyond the 16-bit one.
pub struct ComplementaryState {
    /// The clock division of the dead-time generator, if the field holds one.
    pub clock_division: Option<ClockDivision>,
    /// The setup of the dead-time generator.
    pub dead_time: nat,
    /// Whether the complementary output of each channel is enabled.
    pub complementary_enabled: PerChannel<bool>,
}

impl ComplementaryState {
    /// The state after reset: no clock division, no dead time, no
    /// complementary output enabled.
    pub open spec fn after_reset() -> ComplementaryState {
        ComplementaryState {
            clock_division: Some(ClockDivision::Div1),
            dead_time: 0,
            complementary_enabled: PerChannel::all(false),
        }
    }
}

/// The capability of an advanced timer: a complementary output beside the
/// output of a channel, and a dead time between the two, so that the two
/// switches of a half bridge never conduct at once.
pub trait ComplementaryCaptureCompare16bitInstance: CaptureCompare16bitInstance {
    /// The timer as this capability shows it.
    spec fn complementary(&self) -> ComplementaryState;

    /// Whether a channel has a complementary output.
    spec fn has_complementary_output(channel: Channel) -> bool;

    /// Selects the clock division of the dead-time generator.
    fn set_dead_time_clock_division(&mut self, value: ClockDivision)
        ensures
            final(self).complementary() == (ComplementaryState {
                clock_division: Some(value),
                ..old(self).complementary()
            }),
            final(self)@ == old(self)@.logged(Operation::SetDeadTimeClockDivision(value)),
    ;

    /// Writes the setup of the dead-time generator.
    fn set_dead_time_value(&mut self, value: u8)
        ensures
            final(self).complementary() == (ComplementaryState {
                dead_time: value as nat,
                ..old(self).complementary()
            }),
            final(self)@ == old(self)@.logged(Operation::SetDeadTimeValue(value as nat)),
    ;

    /// Enables or disables the complementary output of a channel that has one.
    fn enable_complementary_channel(&mut self, channel: Channel, enable: bool)
        requires
            Self::has_complementary_output(channel),
        ensures
            final(self).complementary() == (ComplementaryState {
                complementary_enabled: old(self).complementary().complementary_enabled.update(
                    channel,
                    enable,
                ),
                ..old(self).complementary()
            }),
            final(self)@ == old(self)@.logged(
                Operation::EnableComplementaryChannel(channel, enable),
            ),
    ;
}

} // verus!
