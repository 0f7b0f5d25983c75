//! The PWM driver: frequency, duty and counting mode over any timer that
//! offers the 16-bit capability.
use core::marker::PhantomData;
use vstd::prelude::*;
use crate::freq::{
    can_reach, lemma_floor, lemma_frequency_within_resolution,
    lemma_mode_switch_keeps_frequency, lemma_reachable_rate_bound, output_frequency, period_for,
    reachable, Hertz, MAX_PERIOD,
};
use crate::low_level::{CaptureCompare16bitInstance, TimerState};
use crate::mode::{CenterAlignedMode, Channel, OutputCompareMode, PerChannel};

verus! {

/// Marks a pin of channel 1.
pub struct Ch1;

/// Marks a pin of channel 2.
pub struct Ch2;

/// Marks a pin of channel 3.
pub struct Ch3;

/// Marks a pin of channel 4.
pub struct Ch4;

/// A pin that has been handed to channel `C` of the timer `Perip` as its
/// output.
pub struct PwmPin<Perip, C> {
    phantom: PhantomData<(Perip, C)>,
}

impl<Perip, C> PwmPin<Perip, C> {
    /// Stands for a pin that has been switched to the timer's output function.
    pub fn new() -> Self {
        PwmPin { phantom: PhantomData }
    }
}

/// A counting mode chosen by type, for a driver that starts out in it.
pub trait CmsAlignMode {
    /// The counting mode that the type stands for.
    spec fn mode() -> CenterAlignedMode;

    /// The counting mode that the type stands for.
    fn get_mode() -> (r: CenterAlignedMode)
        ensures
            r == Self::mode(),
    ;

    /// How many counter sweeps make one output period in this mode.
    fn freq_factor() -> (r: u8)
        ensures
            r == Self::mode().scale(),
    ;
}

/// The counter counts up.
pub struct CmsEdgeAlignedMode;

/// The counter counts up and down; compare events are raised while it counts
/// down.
pub struct CmsCenterAlignedMode1;

/// The counter counts up and down; compare events are raised while it counts
/// up.
pub struct CmsCenterAlignedMode2;

/// The counter counts up and down; compare events are raised in both
/// directions.
pub struct CmsCenterAlignedMode3;

impl CmsAlignMode for CmsEdgeAlignedMode {
    open spec fn mode() -> CenterAlignedMode {
        CenterAlignedMode::EdgeAligned
    }

    fn get_mode() -> (r: CenterAlignedMode) {
        CenterAlignedMode::EdgeAligned
    }

    fn freq_factor() -> (r: u8) {
        1
    }
}

impl CmsAlignMode for CmsCenterAlignedMode1 {
    open spec fn mode() -> CenterAlignedMode {
        CenterAlignedMode::CenterAlignedMode1
    }

    fn get_mode() -> (r: CenterAlignedMode) {
        CenterAlignedMode::CenterAlignedMode1
    }

    fn freq_factor() -> (r: u8) {
        2
    }
}

impl CmsAlignMode for CmsCenterAlignedMode2 {
    open spec fn mode() -> CenterAlignedMode {
        CenterAlignedMode::CenterAlignedMode2
    }

    fn get_mode() -> (r: CenterAlignedMode) {
        CenterAlignedMode::CenterAlignedMode2
    }

    fn freq_factor() -> (r: u8) {
        2
    }
}

impl CmsAlignMode for CmsCenterAlignedMode3 {
    open spec fn mode() -> CenterAlignedMode {
        CenterAlignedMode::CenterAlignedMode3
    }

    fn get_mode() -> (r: CenterAlignedMode) {
        CenterAlignedMode::CenterAlignedMode3
    }

    fn freq_factor() -> (r: u8) {
        2
    }
}

/// A timer set up for PWM generation.
pub struct SimplePwm<T, CMS = CmsEdgeAlignedMode> {
    inner: T,
    _cms: PhantomData<CMS>,
}

impl<T: CaptureCompare16bitInstance, CMS: CmsAlignMode> SimplePwm<T, CMS> {
    /// The timer under the driver.
    pub closed spec fn view(&self) -> TimerState {
        self.inner@
    }

    /// Takes a timer and sets it up: it switches the peripheral clock on,
    /// resets the timer, selects the counting mode `CMS`, sets the period for
    /// `freq`, starts the counter, enables the output stage and puts every
    /// channel into PWM mode 1. The channels themselves stay disabled.
    pub fn new(
        tim: T,
        _ch1: Option<PwmPin<T, Ch1>>,
        _ch2: Option<PwmPin<T, Ch2>>,
        _ch3: Option<PwmPin<T, Ch3>>,
        _ch4: Option<PwmPin<T, Ch4>>,
        freq: Hertz,
    ) -> (r: Self)
        requires
            reachable(tim@.clock as int, freq.0 * CMS::mode().scale()),
        ensures
            r@ == tim@.set_up(CMS::mode(), freq.0 as int),
            r@ == (TimerState {
                enabled: true,
                running: true,
                mode: CMS::mode(),
                period: period_for(tim@.clock as int, freq.0 * CMS::mode().scale()) as nat,
                compare_mode: PerChannel::all(OutputCompareMode::PwmMode1),
                outputs_enabled: true,
                log: r@.log,
                ..TimerState::after_reset(tim@.clock, tim@.main_output_enable)
            }),
    {
        Self::new_inner(tim, freq)
    }

    fn new_inner(tim: T, freq: Hertz) -> (r: Self)
        requires
            reachable(tim@.clock as int, freq.0 * CMS::mode().scale()),
        ensures
            r@ == tim@.set_up(CMS::mode(), freq.0 as int),
    {
        let mut tim = tim;
        tim.enable();
        tim.reset();

        let mut this = Self { inner: tim, _cms: PhantomData };

        // The counting mode can be changed because the counter is stopped.
        this.inner.set_center_aligned_mode(CMS::get_mode());

        this.set_freq(freq);
        this.inner.start();

        this.inner.enable_outputs(true);

        this.inner.set_output_compare_mode(Channel::Ch1, OutputCompareMode::PwmMode1);
        this.inner.set_output_compare_mode(Channel::Ch2, OutputCompareMode::PwmMode1);
        this.inner.set_output_compare_mode(Channel::Ch3, OutputCompareMode::PwmMode1);
        this.inner.set_output_compare_mode(Channel::Ch4, OutputCompareMode::PwmMode1);
        this
    }

    /// The timer under the driver, to look at.
    pub fn timer(&self) -> (r: &T)
        ensures
            r@ == self@,
    {
        &self.inner
    }

    /// Enables the output of a channel.
    pub fn enable(&mut self, channel: Channel)
        ensures
            final(self)@ == old(self)@.with_channel(channel, true),
    {
        self.inner.enable_channel(channel, true);
    }

    /// Disables the output of a channel.
    pub fn disable(&mut self, channel: Channel)
        ensures
            final(self)@ == old(self)@.with_channel(channel, false),
    {
        self.inner.enable_channel(channel, false);
    }

    /// Starts the counter.
    pub fn tim_enable(&mut self)
        ensures
            final(self)@ == old(self)@.started(),
    {
        self.inner.start();
    }

    /// Stops the counter.
    pub fn tim_disable(&mut self)
        ensures
            final(self)@ == old(self)@.stopped(),
    {
        self.inner.stop();
    }

    /// Whether the outputs can be brought to `freq` in the counting mode that
    /// the timer is in.
    pub fn reaches(&self, freq: Hertz) -> (r: bool)
        ensures
            r == self@.reaches(freq.0 as int),
    {
        let factor: u8 = self.inner.get_center_aligned_mode().freq_factor();
        can_reach(self.inner.frequency().0, freq.0, factor)
    }

    /// Sets the period for an output frequency under the counting mode that
    /// the timer is in. Compare values stay as they are.
    pub fn set_freq(&mut self, freq: Hertz)
        requires
            old(self)@.reaches(freq.0 as int),
        ensures
            final(self)@ == old(self)@.with_frequency(freq.0 as int),
    {
        let factor: u8 = self.inner.get_center_aligned_mode().freq_factor();
        let clock = self.inner.frequency();
        proof {
            lemma_reachable_rate_bound(clock.0 as int, freq.0 * factor);
        }
        self.inner.set_frequency(Hertz(freq.0 * (factor as u32)));
    }

    /// The frequency of the outputs.
    pub fn get_freq(&self) -> (r: Hertz)
        ensures
            r.0 == self@.frequency(),
    {
        let factor: u8 = self.inner.get_center_aligned_mode().freq_factor();
        let clock = self.inner.frequency();
        Hertz(output_frequency(clock.0, self.inner.get_max_compare_value(), factor))
    }

    /// The resolution of the duty values: the period register.
    pub fn get_max_duty(&self) -> (r: u16)
        ensures
            r == self@.period,
    {
        self.inner.get_max_compare_value()
    }

    /// Writes the compare value of a channel. The duty must lie below
    /// `get_max_duty()`.
    pub fn set_duty(&mut self, channel: Channel, duty: u16)
        requires
            duty < old(self)@.period,
        ensures
            final(self)@ == old(self)@.with_compare(channel, duty as nat),
            final(self)@.compare.at(channel) == duty,
    {
        self.inner.set_compare_value(channel, duty)
    }

    /// Puts a channel into another output-compare mode than PWM mode 1, which
    /// `new` selects. What a duty means in that mode is up to the caller.
    pub fn set_output_compare_mode(&mut self, channel: Channel, mode: OutputCompareMode)
        ensures
            final(self)@ == old(self)@.with_compare_mode(channel, mode),
    {
        self.inner.set_output_compare_mode(channel, mode);
    }

    /// The counting mode that the timer is in.
    pub fn get_center_aligned_mode(&self) -> (r: CenterAlignedMode)
        ensures
            r == self@.mode,
    {
        self.inner.get_center_aligned_mode()
    }

    /// Whether the timer can go over to another counting mode and keep its
    /// output frequency.
    pub fn can_switch(&self, cms: CenterAlignedMode) -> (r: bool)
        ensures
            r == self@.can_switch(cms),
    {
        let factor: u8 = self.inner.get_center_aligned_mode().freq_factor();
        cms.freq_factor() == factor || can_reach(
            self.inner.frequency().0,
            self.get_freq().0,
            cms.freq_factor(),
        )
    }

    /// Changes the counting mode and keeps the output frequency: the counter
    /// is stopped, the mode written, the period set anew for the frequency the
    /// outputs had if the new mode needs another number of sweeps, and the
    /// counter started again. Compare values stay as they are.
    pub fn set_center_aligned_mode(&mut self, cms: CenterAlignedMode)
        requires
            old(self)@.can_switch(cms),
        ensures
            final(self)@ == old(self)@.switched(cms),
    {
        let freq = self.get_freq();
        let old_factor: u8 = self.inner.get_center_aligned_mode().freq_factor();
        self.inner.stop();
        self.inner.set_center_aligned_mode(cms);
        if cms.freq_factor() != old_factor {
            self.set_freq(freq);
        }
        self.inner.start();
    }
}

/// After `set_freq` the outputs run within one step of the period register of
/// the frequency that was asked for: no slower than asked, slower than asked if
/// the period were one tick longer, and with an excess that, multiplied by the
/// ticks of a sweep, stays below the frequency asked for.
pub proof fn lemma_set_freq_within_resolution(timer: TimerState, freq: int)
    requires
        timer.reaches(freq),
    ensures
        ({
            let set = timer.with_frequency(freq);
            &&& set.period <= MAX_PERIOD
            &&& freq <= set.frequency()
            &&& (TimerState { period: set.period + 1, ..set }).frequency() < freq
            &&& (set.frequency() - freq) * (set.period + 1) < freq
        }),
{
    lemma_frequency_within_resolution(timer.clock as int, freq, timer.mode.scale() as int);
}

/// After `set_center_aligned_mode` the timer is in the mode that was asked
/// for, whichever of the four it is.
pub proof fn lemma_mode_round_trip(timer: TimerState, cms: CenterAlignedMode)
    ensures
        timer.switched(cms).mode == cms,
{
}

/// `set_center_aligned_mode` keeps the output frequency. The ticks of an
/// output period fall short of those before by less than one step of the new
/// mode and never exceed what the frequency before allows; the outputs run no
/// slower than before, and where the number of sweeps changes they would run
/// slower than before if the period were one tick longer; where the clock is a
/// multiple of the ticks before and those a multiple of the new mode's sweeps,
/// ticks and frequency are exactly what they were.
pub proof fn lemma_switch_keeps_frequency(timer: TimerState, cms: CenterAlignedMode)
    requires
        timer.can_switch(cms),
    ensures
        ({
            let after = timer.switched(cms);
            &&& timer.ticks() - cms.scale() < after.ticks()
            &&& after.ticks() * timer.frequency() <= timer.clock
            &&& timer.frequency() <= after.frequency()
            &&& cms.scale() != timer.mode.scale() ==> (TimerState {
                period: after.period + 1,
                ..after
            }).frequency() < timer.frequency()
            &&& timer.clock % (timer.ticks() as nat) == 0 && timer.ticks() % (cms.scale() as int)
                == 0 ==> after.ticks() == timer.ticks() && after.frequency() == timer.frequency()
        }),
{
    if cms.scale() == timer.mode.scale() {
        assert(timer.ticks() > 0) by (nonlinear_arith)
            requires
                timer.ticks() == (timer.period + 1) * timer.mode.scale(),
                timer.mode.scale() > 0,
        ;
        lemma_floor(timer.clock as int, timer.ticks());
    } else {
        lemma_mode_switch_keeps_frequency(
            timer.clock as int,
            timer.period as int,
            timer.mode.scale() as int,
            cms.scale() as int,
        );
    }
}

} // verus!
