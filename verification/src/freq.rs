//! The arithmetic between output frequency, counting rate and period register.
//!
//! A counter fed with `clock` ticks per second and reloaded at `period` takes
//! `period + 1` ticks for one sweep. An edge-aligned output repeats with every
//! sweep, a center-aligned one with every second sweep, so the counter has to
//! sweep `scale` times as often as the output is to repeat.
use vstd::prelude::*;

verus! {

/// A frequency in hertz.
#[derive(Clone, Copy, PartialEq, Eq, Structural, Debug)]
pub struct Hertz(pub u32);

/// The largest value that a 16-bit period register holds.
pub const MAX_PERIOD: u32 = 0xffff;

/// Whether a counter fed with `clock` can sweep `rate` times per second: a
/// sweep takes at least one tick, and at most as many as a 16-bit period
/// register can ask for.
pub open spec fn reachable(clock: int, rate: int) -> bool {
    rate > 0 && 1 <= clock / rate <= MAX_PERIOD + 1
}

/// The period register value with which a counter fed with `clock` sweeps
/// `rate` times per second: one less than the ticks that fit in a sweep.
pub open spec fn period_for(clock: int, rate: int) -> int {
    clock / rate - 1
}

/// The output frequency of a counter fed with `clock` that is reloaded at
/// `period` and needs `scale` sweeps for one output period.
pub open spec fn effective_frequency(clock: int, period: int, scale: int) -> int {
    clock / ((period + 1) * scale)
}

/// The period register value for a counting rate, if the counter can reach it.
pub fn period_register(clock: u32, rate: u32) -> (r: Option<u16>)
    ensures
        r.is_some() == reachable(clock as int, rate as int),
        r matches Some(p) ==> p == period_for(clock as int, rate as int),
{
    if rate == 0 {
        return None;
    }
    let ticks: u32 = clock / rate;
    if ticks == 0 || ticks > MAX_PERIOD + 1 {
        None
    } else {
        Some((ticks - 1) as u16)
    }
}

/// Whether a counter fed with `clock` can give the output frequency `freq`
/// when an output period takes `factor` sweeps.
pub fn can_reach(clock: u32, freq: u32, factor: u8) -> (r: bool)
    ensures
        r == reachable(clock as int, freq * factor),
{
    assert(freq * factor <= 0xffff_ffff * 0xff) by (nonlinear_arith)
        requires
            freq <= 0xffff_ffff,
            factor <= 0xff,
    ;
    let rate: u64 = (freq as u64) * (factor as u64);
    if rate > u32::MAX as u64 {
        proof {
            vstd::arithmetic::div_mod::lemma_basic_div(clock as int, rate as int);
        }
        false
    } else {
        period_register(clock, rate as u32).is_some()
    }
}

/// The output frequency that a period register value gives.
pub fn output_frequency(clock: u32, period: u16, factor: u8) -> (r: u32)
    requires
        factor == 1 || factor == 2,
    ensures
        r == effective_frequency(clock as int, period as int, factor as int),
{
    let sweep: u32 = period as u32 + 1;
    let ticks: u32 = if factor == 1 {
        sweep
    } else {
        sweep * 2
    };
    assert(ticks == (period + 1) * factor) by (nonlinear_arith)
        requires
            factor == 1 || factor == 2,
            ticks == if factor == 1 { period + 1 } else { (period + 1) * 2 },
    ;
    clock / ticks
}

/// A counting rate that the counter can reach is no greater than the clock.
pub proof fn lemma_reachable_rate_bound(clock: int, rate: int)
    requires
        reachable(clock, rate),
    ensures
        0 < rate <= clock,
        (clock / rate) * rate <= clock < (clock / rate + 1) * rate,
{
    lemma_floor(clock, rate);
    assert(rate <= clock) by (nonlinear_arith)
        requires
            rate > 0,
            clock / rate >= 1,
            (clock / rate) * rate <= clock,
    ;
}

/// Division by a positive number rounds down: the quotient is the largest
/// multiplier that keeps the product within the dividend.
pub proof fn lemma_floor(a: int, d: int)
    requires
        d > 0,
    ensures
        (a / d) * d <= a < (a / d + 1) * d,
{
    vstd::arithmetic::div_mod::lemma_fundamental_div_mod(a, d);
    vstd::arithmetic::div_mod::lemma_mod_bound(a, d);
    assert((a / d + 1) * d == (a / d) * d + d) by (nonlinear_arith);
    assert(d * (a / d) == (a / d) * d) by (nonlinear_arith);
}

/// A quotient is at least `k` exactly when `k` times the divisor fits in the
/// dividend.
pub proof fn lemma_quotient_at_least(a: int, d: int, k: int)
    requires
        d > 0,
    ensures
        (a / d >= k) <==> (k * d <= a),
{
    lemma_floor(a, d);
    let q: int = a / d;
    if q >= k {
        assert(k * d <= q * d) by (nonlinear_arith)
            requires
                k <= q,
                d > 0,
        ;
    } else {
        assert((q + 1) * d <= k * d) by (nonlinear_arith)
            requires
                q + 1 <= k,
                d > 0,
        ;
    }
}

/// The frequency that comes out lies within one step of the period register
/// of the frequency that was asked for: with the period chosen for
/// `frequency` the output is no slower than asked, with the next longer
/// period it would be slower, and the excess, multiplied by the ticks of a
/// sweep, stays below `frequency`.
pub proof fn lemma_frequency_within_resolution(clock: int, frequency: int, scale: int)
    requires
        scale == 1 || scale == 2,
        reachable(clock, frequency * scale),
    ensures
        ({
            let period: int = period_for(clock, frequency * scale);
            let actual: int = effective_frequency(clock, period, scale);
            &&& 0 <= period <= MAX_PERIOD
            &&& frequency <= actual
            &&& effective_frequency(clock, period + 1, scale) < frequency
            &&& (actual - frequency) * (period + 1) < frequency
        }),
{
    let rate: int = frequency * scale;
    let sweep: int = clock / rate;
    let period: int = sweep - 1;
    let actual: int = clock / (sweep * scale);
    assert(frequency > 0) by (nonlinear_arith)
        requires
            frequency * scale > 0,
            scale > 0,
    ;
    lemma_floor(clock, rate);
    assert(sweep * scale > 0 && (sweep + 1) * scale > 0) by (nonlinear_arith)
        requires
            sweep >= 1,
            scale > 0,
    ;
    assert(frequency * (sweep * scale) == sweep * rate) by (nonlinear_arith)
        requires
            rate == frequency * scale,
    ;
    assert(frequency * ((sweep + 1) * scale) == (sweep + 1) * rate) by (nonlinear_arith)
        requires
            rate == frequency * scale,
    ;
    lemma_quotient_at_least(clock, sweep * scale, frequency);
    lemma_quotient_at_least(clock, (sweep + 1) * scale, frequency);
    lemma_floor(clock, sweep * scale);
    assert((actual - frequency) * sweep < frequency) by (nonlinear_arith)
        requires
            actual * (sweep * scale) <= clock,
            clock < (sweep + 1) * (frequency * scale),
            scale > 0,
            sweep >= 1,
    ;
}

/// Re-deriving the period for another counting mode keeps the output
/// frequency. Let `before` be the output frequency under the old mode and
/// `after` the period chosen for `before` under the new mode. Then the ticks
/// of an output period fall short of the old ones by less than one step of the
/// new mode, and never exceed what `before` allows; `before` lies within one
/// step of the new period register of the frequency that comes out; and where
/// neither division leaves a remainder, ticks and frequency are the same as
/// before.
pub proof fn lemma_mode_switch_keeps_frequency(
    clock: int,
    period: int,
    old_scale: int,
    new_scale: int,
)
    requires
        0 <= period,
        old_scale == 1 || old_scale == 2,
        new_scale == 1 || new_scale == 2,
        reachable(clock, effective_frequency(clock, period, old_scale) * new_scale),
    ensures
        ({
            let before: int = effective_frequency(clock, period, old_scale);
            let after: int = period_for(clock, before * new_scale);
            let old_ticks: int = (period + 1) * old_scale;
            let new_ticks: int = (after + 1) * new_scale;
            &&& 0 <= after <= MAX_PERIOD
            &&& old_ticks - new_scale < new_ticks
            &&& new_ticks * before <= clock
            &&& before <= effective_frequency(clock, after, new_scale)
            &&& effective_frequency(clock, after + 1, new_scale) < before
            &&& clock % old_ticks == 0 && old_ticks % new_scale == 0 ==> {
                &&& new_ticks == old_ticks
                &&& effective_frequency(clock, after, new_scale) == before
            }
        }),
{
    let old_ticks: int = (period + 1) * old_scale;
    let before: int = clock / old_ticks;
    let rate: int = before * new_scale;
    let sweep: int = clock / rate;
    let new_ticks: int = sweep * new_scale;
    assert(old_ticks > 0) by (nonlinear_arith)
        requires
            old_ticks == (period + 1) * old_scale,
            period >= 0,
            old_scale > 0,
    ;
    lemma_frequency_within_resolution(clock, before, new_scale);
    lemma_floor(clock, old_ticks);
    lemma_floor(clock, rate);
    assert(before > 0) by (nonlinear_arith)
        requires
            before * new_scale > 0,
            new_scale > 0,
    ;
    assert(old_ticks - new_scale < new_ticks && new_ticks * before <= clock) by (nonlinear_arith)
        requires
            before * old_ticks <= clock,
            sweep * (before * new_scale) <= clock,
            clock < (sweep + 1) * (before * new_scale),
            new_ticks == sweep * new_scale,
            before > 0,
    ;
    if clock % old_ticks == 0 && old_ticks % new_scale == 0 {
        vstd::arithmetic::div_mod::lemma_fundamental_div_mod(clock, old_ticks);
        vstd::arithmetic::div_mod::lemma_fundamental_div_mod(old_ticks, new_scale);
        let k: int = old_ticks / new_scale;
        assert(clock == rate * k) by (nonlinear_arith)
            requires
                clock == old_ticks * before,
                old_ticks == new_scale * k,
                rate == before * new_scale,
        ;
        vstd::arithmetic::div_mod::lemma_div_multiples_vanish(k, rate);
        assert(new_ticks == old_ticks) by (nonlinear_arith)
            requires
                new_ticks == k * new_scale,
                old_ticks == new_scale * k,
        ;
    }
}

} // verus!
