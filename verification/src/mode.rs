//! Selector values: channels, output-compare modes, counting modes and the
//! dead-time clock division, each with the field value that stands for it in
//! the timer's registers.
use vstd::prelude::*;

verus! {

/// One of the four capture/compare channels of a timer.
#[derive(Clone, Copy, PartialEq, Eq, Structural, Debug)]
pub enum Channel {
    Ch1,
    Ch2,
    Ch3,
    Ch4,
}

impl Channel {
    /// The zero-based position of the channel among the timer's channels.
    pub open spec fn index(self) -> int {
        match self {
            Channel::Ch1 => 0,
            Channel::Ch2 => 1,
            Channel::Ch3 => 2,
            Channel::Ch4 => 3,
        }
    }

    /// The zero-based index that addresses the channel's registers.
    pub fn raw(&self) -> (r: usize)
        ensures
            r == self.index(),
    {
        match self {
            Channel::Ch1 => 0,
            Channel::Ch2 => 1,
            Channel::Ch3 => 2,
            Channel::Ch4 => 3,
        }
    }
}

/// One value for each of the four channels.
pub struct PerChannel<T> {
    pub ch1: T,
    pub ch2: T,
    pub ch3: T,
    pub ch4: T,
}

impl<T> PerChannel<T> {
    /// The same value for every channel.
    pub open spec fn all(value: T) -> Self {
        PerChannel { ch1: value, ch2: value, ch3: value, ch4: value }
    }

    /// The value of one channel.
    pub open spec fn at(self, channel: Channel) -> T {
        match channel {
            Channel::Ch1 => self.ch1,
            Channel::Ch2 => self.ch2,
            Channel::Ch3 => self.ch3,
            Channel::Ch4 => self.ch4,
        }
    }

    /// The same values but for one channel.
    pub open spec fn update(self, channel: Channel, value: T) -> Self {
        match channel {
            Channel::Ch1 => PerChannel { ch1: value, ..self },
            Channel::Ch2 => PerChannel { ch2: value, ..self },
            Channel::Ch3 => PerChannel { ch3: value, ..self },
            Channel::Ch4 => PerChannel { ch4: value, ..self },
        }
    }
}

/// How a channel's output reacts when the counter matches its compare value.
#[derive(Clone, Copy, PartialEq, Eq, Structural, Debug)]
pub enum OutputCompareMode {
    Frozen,
    ActiveOnMatch,
    InactiveOnMatch,
    Toggle,
    ForceInactive,
    ForceActive,
    PwmMode1,
    PwmMode2,
}

impl OutputCompareMode {
    /// The value of the three-bit output-compare mode field that selects this mode.
    pub open spec fn encoding(self) -> u8 {
        match self {
            OutputCompareMode::Frozen => 0,
            OutputCompareMode::ActiveOnMatch => 1,
            OutputCompareMode::InactiveOnMatch => 2,
            OutputCompareMode::Toggle => 3,
            OutputCompareMode::ForceInactive => 4,
            OutputCompareMode::ForceActive => 5,
            OutputCompareMode::PwmMode1 => 6,
            OutputCompareMode::PwmMode2 => 7,
        }
    }

    /// The mode that a field value selects; only the low three bits count.
    pub open spec fn decode(bits: u8) -> OutputCompareMode {
        match bits % 8 {
            0 => OutputCompareMode::Frozen,
            1 => OutputCompareMode::ActiveOnMatch,
            2 => OutputCompareMode::InactiveOnMatch,
            3 => OutputCompareMode::Toggle,
            4 => OutputCompareMode::ForceInactive,
            5 => OutputCompareMode::ForceActive,
            6 => OutputCompareMode::PwmMode1,
            _ => OutputCompareMode::PwmMode2,
        }
    }

    /// The field value that selects this variant.
    pub fn bits(self) -> (r: u8)
        ensures
            r == self.encoding(),
            r < 8,
    {
        match self {
            OutputCompareMode::Frozen => 0,
            OutputCompareMode::ActiveOnMatch => 1,
            OutputCompareMode::InactiveOnMatch => 2,
            OutputCompareMode::Toggle => 3,
            OutputCompareMode::ForceInactive => 4,
            OutputCompareMode::ForceActive => 5,
            OutputCompareMode::PwmMode1 => 6,
            OutputCompareMode::PwmMode2 => 7,
        }
    }

    /// Decoding undoes encoding, and every three-bit value is the encoding of
    /// the mode it decodes to.
    pub proof fn lemma_encoding_round_trip(mode: OutputCompareMode, bits: u8)
        ensures
            OutputCompareMode::decode(mode.encoding()) == mode,
            OutputCompareMode::decode(bits).encoding() == bits % 8,
    {
    }
}

/// The counting mode of the timer: up only, or one of three up-then-down
/// variants that differ in when compare-match events are raised.
#[derive(Clone, Copy, PartialEq, Eq, Structural, Debug)]
pub enum CenterAlignedMode {
    EdgeAligned,
    CenterAlignedMode1,
    CenterAlignedMode2,
    CenterAlignedMode3,
}

impl CenterAlignedMode {
    /// The value of the two-bit alignment field that selects this mode.
    pub open spec fn encoding(self) -> u8 {
        match self {
            CenterAlignedMode::EdgeAligned => 0,
            CenterAlignedMode::CenterAlignedMode1 => 1,
            CenterAlignedMode::CenterAlignedMode2 => 2,
            CenterAlignedMode::CenterAlignedMode3 => 3,
        }
    }

    /// The mode that a field value selects; only the low two bits count.
    pub open spec fn decode(bits: u8) -> CenterAlignedMode {
        match bits % 4 {
            0 => CenterAlignedMode::EdgeAligned,
            1 => CenterAlignedMode::CenterAlignedMode1,
            2 => CenterAlignedMode::CenterAlignedMode2,
            _ => CenterAlignedMode::CenterAlignedMode3,
        }
    }

    /// How many counter sweeps make one output period: one when the counter
    /// only counts up, two when it counts up and then down.
    pub open spec fn scale(self) -> nat {
        match self {
            CenterAlignedMode::EdgeAligned => 1,
            _ => 2,
        }
    }

    /// The field value that selects this variant.
    pub fn bits(self) -> (r: u8)
        ensures
            r == self.encoding(),
            r < 4,
    {
        match self {
            CenterAlignedMode::EdgeAligned => 0,
            CenterAlignedMode::CenterAlignedMode1 => 1,
            CenterAlignedMode::CenterAlignedMode2 => 2,
            CenterAlignedMode::CenterAlignedMode3 => 3,
        }
    }

    /// The factor by which the counting rate exceeds the output frequency.
    pub fn freq_factor(self) -> (r: u8)
        ensures
            r == self.scale(),
            r == 1 || r == 2,
    {
        match self {
            CenterAlignedMode::EdgeAligned => 1,
            _ => 2,
        }
    }

    /// Decoding undoes encoding, and every two-bit value is the encoding of
    /// the mode it decodes to.
    pub proof fn lemma_encoding_round_trip(mode: CenterAlignedMode, bits: u8)
        ensures
            CenterAlignedMode::decode(mode.encoding()) == mode,
            CenterAlignedMode::decode(bits).encoding() == bits % 4,
    {
    }
}

/// The ratio between the timer clock and the clock of the dead-time generator.
#[derive(Clone, Copy, PartialEq, Eq, Structural, Debug)]
pub enum ClockDivision {
    Div1,
    Div2,
    Div4,
}

impl ClockDivision {
    /// The value of the two-bit clock-division field that selects this ratio.
    pub open spec fn encoding(self) -> u8 {
        match self {
            ClockDivision::Div1 => 0,
            ClockDivision::Div2 => 1,
            ClockDivision::Div4 => 2,
        }
    }

    /// The ratio that a field value selects; the fourth value of the field
    /// selects none.
    pub open spec fn decode(bits: u8) -> Option<ClockDivision> {
        match bits % 4 {
            0 => Some(ClockDivision::Div1),
            1 => Some(ClockDivision::Div2),
            2 => Some(ClockDivision::Div4),
            _ => None,
        }
    }

    /// The field value that selects this variant.
    pub fn bits(self) -> (r: u8)
        ensures
            r == self.encoding(),
            r < 3,
            ClockDivision::decode(r) == Some(self),
    {
        match self {
            ClockDivision::Div1 => 0,
            ClockDivision::Div2 => 1,
            ClockDivision::Div4 => 2,
        }
    }
}

} // verus!
