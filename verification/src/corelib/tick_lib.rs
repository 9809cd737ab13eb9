use vstd::prelude::*;
use super::calc_lib::{_percentage128, _percentage64, spec_percentage};
use super::constants::{_BASE_PRICE, _HUNDRED_PERCENT, _ONE_BASIS_POINT, _ONE_PERCENT};

verus! {

pub type Tick = u64;

/// The whole percents of a tick.
pub open spec fn spec_integral(tick: int) -> int {
    tick / (_ONE_PERCENT as int)
}

/// The basis points of a tick within its percent, from 0 to 99.
pub open spec fn spec_decimal(tick: int) -> int {
    (tick % (_ONE_PERCENT as int)) / (_ONE_BASIS_POINT as int)
}

/// The tick of a whole percent.
pub open spec fn spec_tick_zero(integral: int) -> int {
    integral * _ONE_PERCENT
}

/// The tick named by a percent and a basis point within it.
pub open spec fn spec_tick_at(integral: int, decimal: int) -> int {
    integral * _ONE_PERCENT + decimal * _ONE_BASIS_POINT
}

/// A tick that names a basis point exactly.
pub open spec fn spec_aligned(tick: int) -> bool {
    tick % (_ONE_BASIS_POINT as int) == 0
}

/// Where a walk goes on from a percent that holds nothing more in its direction:
/// up to the next whole percent, or down to the last basis point of the percent
/// below.
pub open spec fn spec_next_default_tick(integral: int, buy: bool) -> int {
    if buy {
        spec_tick_zero(integral + 1)
    } else {
        spec_tick_zero(integral - 1) + 99 * _ONE_BASIS_POINT
    }
}

/// Five percent above the current tick for a buy, five percent below for a sell.
pub open spec fn spec_def_max_tick(current_tick: int, buy: bool) -> int {
    if buy {
        current_tick + spec_percentage(5 * _ONE_PERCENT, current_tick)
    } else {
        current_tick - spec_percentage(5 * _ONE_PERCENT, current_tick)
    }
}

/// Whether a walk in the given direction has gone past its stop.
pub open spec fn spec_exceeded_stopping_tick(current_tick: int, stopping_tick: int, buy: bool) -> bool {
    if buy {
        current_tick > stopping_tick
    } else {
        current_tick < stopping_tick
    }
}

/// The price of a tick, as the tick's share of the base price.
pub open spec fn spec_tick_to_price(tick: int) -> int {
    spec_percentage(tick, _BASE_PRICE as int)
}

/// The base price is one hundred percent, so a tick and its price are one number.
pub proof fn lemma_tick_to_price(tick: int)
    ensures
        spec_tick_to_price(tick) == tick,
{
    assert((tick * 10_000_000) / 10_000_000 == tick) by (nonlinear_arith);
}

/// A tick is its percent, its basis point and what is left below the basis point;
/// the basis point is at most 99. An aligned tick is named by the first two alone,
/// and by no other pair.
pub proof fn lemma_int_and_dec(tick: int)
    requires
        tick >= 0,
    ensures
        0 <= spec_integral(tick),
        0 <= spec_decimal(tick) <= 99,
        tick == spec_tick_at(spec_integral(tick), spec_decimal(tick)) + tick % (
        _ONE_BASIS_POINT as int),
        spec_aligned(tick) ==> tick == spec_tick_at(spec_integral(tick), spec_decimal(tick)),
{
}

/// A percent and a basis point within it name one aligned tick, and the tick gives
/// both back.
pub proof fn lemma_tick_at(integral: int, decimal: int)
    requires
        integral >= 0,
        0 <= decimal <= 99,
    ensures
        spec_aligned(spec_tick_at(integral, decimal)),
        spec_integral(spec_tick_at(integral, decimal)) == integral,
        spec_decimal(spec_tick_at(integral, decimal)) == decimal,
{
}

/// The default limit of a swap that was given none.
pub fn _def_max_tick(current_tick: Tick, buy: bool) -> (r: Tick)
    requires
        buy ==> spec_def_max_tick(current_tick as int, true) <= u64::MAX,
    ensures
        r == spec_def_max_tick(current_tick as int, buy),
{
    assert(((5 * _ONE_PERCENT) * current_tick) / (_HUNDRED_PERCENT as int) <= current_tick)
        by (nonlinear_arith)
        requires
            _ONE_PERCENT == 100_000,
            _HUNDRED_PERCENT == 10_000_000,
            current_tick >= 0,
    ;
    if buy {
        current_tick + _percentage64(5 * _ONE_PERCENT, current_tick)
    } else {
        current_tick - _percentage64(5 * _ONE_PERCENT, current_tick)
    }
}

/// The tick at which a walk goes on when a percent holds nothing more.
pub fn _next_default_tick(integral: u64, buy: bool) -> (r: Tick)
    requires
        buy || integral >= 1,
        spec_next_default_tick(integral as int, buy) <= u64::MAX,
    ensures
        r == spec_next_default_tick(integral as int, buy),
{
    if buy {
        _tick_zero(integral + 1)
    } else {
        _tick_zero(integral - 1) + (99 * _ONE_BASIS_POINT)
    }
}

/// The same tick where it is one: `None` where it would lie above the highest
/// tick or below zero.
pub fn _checked_next_default_tick(integral: u64, buy: bool) -> (r: Option<Tick>)
    ensures
        match r {
            Some(tick) => tick == spec_next_default_tick(integral as int, buy),
            None => !(0 <= spec_next_default_tick(integral as int, buy) <= u64::MAX),
        },
{
    if buy {
        if integral == u64::MAX {
            return None;
        }
        _checked_tick_at(integral + 1, 0)
    } else {
        if integral == 0 {
            return None;
        }
        _checked_tick_at(integral - 1, 99)
    }
}

/// The tick named by a percent and a basis point within it, where it fits.
pub fn _checked_tick_at(integral: u64, decimal: u64) -> (r: Option<Tick>)
    requires
        decimal <= 99,
    ensures
        match r {
            Some(tick) => tick == spec_tick_at(integral as int, decimal as int),
            None => spec_tick_at(integral as int, decimal as int) > u64::MAX,
        },
{
    match integral.checked_mul(_ONE_PERCENT) {
        Some(zero) => zero.checked_add(decimal * _ONE_BASIS_POINT),
        None => None,
    }
}

/// The tick of a whole percent.
pub fn _tick_zero(integral: u64) -> (r: Tick)
    requires
        spec_tick_zero(integral as int) <= u64::MAX,
    ensures
        r == spec_tick_zero(integral as int),
{
    integral * _ONE_PERCENT
}

/// Splits a tick into its whole percents and its basis points within the percent.
pub fn _int_and_dec(tick: Tick) -> (r: (u64, u64))
    ensures
        r.0 == spec_integral(tick as int),
        r.1 == spec_decimal(tick as int),
        r.1 <= 99,
        spec_tick_zero(r.0 as int) <= tick,
{
    let multiplier: u64 = tick / _ONE_PERCENT;
    let bit_position: u64 = (tick % _ONE_PERCENT) / (_ONE_BASIS_POINT);
    return (multiplier, bit_position);
}

/// Whether `current_tick` lies past `stopping_tick` in the direction of the swap.
pub fn _exceeded_stopping_tick(current_tick: Tick, stopping_tick: Tick, buy: bool) -> (r: bool)
    ensures
        r == spec_exceeded_stopping_tick(current_tick as int, stopping_tick as int, buy),
{
    if buy {
        return current_tick > stopping_tick;
    } else {
        return current_tick < stopping_tick;
    }
}

/// The price of a tick.
pub fn _tick_to_price(tick: Tick) -> (r: u128)
    ensures
        r == spec_tick_to_price(tick as int),
        r == tick,
{
    proof {
        lemma_tick_to_price(tick as int);
    }
    return _percentage128(tick, _BASE_PRICE);
}

} // verus!
