use vstd::prelude::*;
use super::constants::{_HUNDRED_PERCENT, _ONE_HOUR};
use super::wide_lib::_checked_mul_div;

verus! {

pub type Amount = u128;

/// `x` of `value`, where `x` counts hundred-thousandths of a percent: `x * value`
/// over one hundred percent, rounded down.
pub open spec fn spec_percentage(x: int, value: int) -> int {
    (x * value) / (_HUNDRED_PERCENT as int)
}

/// The shares that `amount_in` buys of a pool that holds `init_liquidity` against
/// `init_total_shares`: the first deposit into an empty pool is its own share.
pub open spec fn spec_calc_shares(amount_in: int, init_total_shares: int, init_liquidity: int) -> int {
    if init_total_shares == 0 || init_liquidity == 0 {
        amount_in
    } else {
        (amount_in * init_total_shares) / init_liquidity
    }
}

/// What `shares` of a pool are worth that holds `init_liquidity` against
/// `init_total_shares`.
pub open spec fn spec_calc_shares_value(shares: int, init_total_shares: int, init_liquidity: int) -> int {
    (shares * init_liquidity) / init_total_shares
}

/// The number of whole hours that have ended strictly before `now`, counted from
/// `start_time`: the `k >= 1` with `start_time + k * ONE_HOUR < now`.
pub open spec fn spec_hours_elapsed(start_time: int, now: int) -> int {
    if now > start_time {
        (now - start_time - 1) / (_ONE_HOUR as int)
    } else {
        0
    }
}

/// The interest on `debt` at `interest_rate` per hour: one hourly fee, computed on
/// the original debt, for each hour counted by `spec_hours_elapsed`.
pub open spec fn spec_calc_interest(debt: int, interest_rate: int, start_time: int, now: int) -> int {
    spec_hours_elapsed(start_time, now) * spec_percentage(interest_rate, debt)
}

/// An hour is charged exactly when it has ended strictly before `now`.
pub proof fn lemma_hours_elapsed_counts(start_time: int, now: int, k: int)
    requires
        k >= 1,
    ensures
        k <= spec_hours_elapsed(start_time, now) <==> start_time + k * _ONE_HOUR < now,
{
    let h = _ONE_HOUR as int;
    if now > start_time {
        let d = now - start_time - 1;
        assert(d == h * (d / h) + d % h && 0 <= d % h < h) by (nonlinear_arith)
            requires
                h > 0,
                d >= 0,
        ;
        if k <= d / h {
            assert(k * h <= (d / h) * h) by (nonlinear_arith)
                requires
                    k <= d / h,
                    h > 0,
            ;
            assert((d / h) * h == h * (d / h)) by (nonlinear_arith);
        } else {
            assert(k * h >= (d / h + 1) * h) by (nonlinear_arith)
                requires
                    k >= d / h + 1,
                    h > 0,
            ;
            assert((d / h + 1) * h == h * (d / h) + h) by (nonlinear_arith);
        }
    } else {
        assert(k * h >= 0) by (nonlinear_arith)
            requires
                k >= 1,
                h > 0,
        ;
    }
}

/// The interest that a debt has run up between `start_time` and `now`, charged by
/// the hour and never compounded.
pub fn _calc_interest(debt: Amount, interest_rate: u32, start_time: u64, now: u64) -> (fee: Amount)
    requires
        spec_percentage(interest_rate as int, debt as int) <= u128::MAX,
        spec_calc_interest(debt as int, interest_rate as int, start_time as int, now as int)
            <= u128::MAX,
    ensures
        fee == spec_calc_interest(debt as int, interest_rate as int, start_time as int, now as int),
{
    _checked_interest(debt, interest_rate, start_time, now).unwrap()
}

/// The interest that a debt has run up, where it fits in an amount.
pub fn _checked_interest(debt: Amount, interest_rate: u32, start_time: u64, now: u64) -> (r: Option<Amount>)
    ensures
        match r {
            Some(interest) => interest == spec_calc_interest(
                debt as int,
                interest_rate as int,
                start_time as int,
                now as int,
            ) && spec_percentage(interest_rate as int, debt as int) <= u128::MAX,
            None => spec_percentage(interest_rate as int, debt as int) > u128::MAX
                || spec_calc_interest(
                debt as int,
                interest_rate as int,
                start_time as int,
                now as int,
            ) > u128::MAX,
        },
{
    let hourly: u128 = match _checked_mul_div(
        interest_rate as u128,
        debt,
        _HUNDRED_PERCENT as u128,
    ) {
        Some(hourly) => hourly,
        None => {
            return None;
        },
    };
    let hours: u64 = if now > start_time {
        (now - start_time - 1) / _ONE_HOUR
    } else {
        0
    };
    if hourly == 0 || hours == 0 {
        assert(hours as int * hourly as int == 0) by (nonlinear_arith)
            requires
                hourly == 0 || hours == 0,
        ;
        return Some(0);
    }
    (hours as u128).checked_mul(hourly)
}

/// The shares handed out for `amount_in`, given the pool before the deposit.
pub fn _calc_shares(amount_in: Amount, init_total_shares: Amount, init_liquidity: Amount) -> (shares:
    Amount)
    requires
        spec_calc_shares(amount_in as int, init_total_shares as int, init_liquidity as int)
            <= u128::MAX,
    ensures
        shares == spec_calc_shares(
            amount_in as int,
            init_total_shares as int,
            init_liquidity as int,
        ),
{
    if init_total_shares == 0 || init_liquidity == 0 {
        return amount_in;
    }
    _checked_mul_div(amount_in, init_total_shares, init_liquidity).unwrap()
}

/// The value of `shares`, given the pool before the withdrawal.
pub fn _calc_shares_value(shares: Amount, init_total_shares: Amount, init_liquidity: Amount) -> (value:
    Amount)
    requires
        init_total_shares > 0,
        spec_calc_shares_value(shares as int, init_total_shares as int, init_liquidity as int)
            <= u128::MAX,
    ensures
        value == spec_calc_shares_value(
            shares as int,
            init_total_shares as int,
            init_liquidity as int,
        ),
{
    _checked_mul_div(shares, init_liquidity, init_total_shares).unwrap()
}

/// `x` of `value`, for amounts.
pub fn _percentage128(x: u64, value: Amount) -> (r: Amount)
    requires
        spec_percentage(x as int, value as int) <= u128::MAX,
    ensures
        r == spec_percentage(x as int, value as int),
{
    _checked_mul_div(x as u128, value, _HUNDRED_PERCENT as u128).unwrap()
}

/// `x` of `value`, for ticks.
pub fn _percentage64(x: u64, value: u64) -> (r: u64)
    requires
        spec_percentage(x as int, value as int) <= u64::MAX,
    ensures
        r == spec_percentage(x as int, value as int),
{
    assert(x as u128 * value as u128 <= u128::MAX) by (nonlinear_arith)
        requires
            x <= u64::MAX,
            value <= u64::MAX,
    ;
    let wide: u128 = ((x as u128) * (value as u128)) / (_HUNDRED_PERCENT as u128);
    wide as u64
}

} // verus!
