use vstd::prelude::*;
use super::constants::_PRICE_DECIMAL;
use super::wide_lib::_checked_mul_div;

verus! {

pub type Amount = u128;

/// What `amount` of one asset is worth in the other at `price`. A buy turns quote
/// into base and divides by the price; a sell turns base into quote and multiplies
/// by it. Both round down.
pub open spec fn spec_equivalent(amount: int, price: int, buy: bool) -> int {
    if buy {
        (amount * _PRICE_DECIMAL as int) / price
    } else {
        (amount * price) / (_PRICE_DECIMAL as int)
    }
}

/// Nothing is worth nothing at any price above zero.
pub proof fn lemma_equivalent_zero(price: int, buy: bool)
    requires
        price > 0,
    ensures
        spec_equivalent(0, price, buy) == 0,
{
    assert((0int * 10_000_000int) / price == 0) by (nonlinear_arith)
        requires
            price > 0,
    ;
    assert((0int * price) / 10_000_000int == 0) by (nonlinear_arith);
}

/// The same conversion where it can be computed: `None` where a buy meets the price
/// zero or the result does not fit in 128 bits.
pub fn _checked_equivalent(amount: Amount, price: Amount, buy: bool) -> (r: Option<Amount>)
    ensures
        buy && price == 0 ==> r is None,
        !(buy && price == 0) ==> match r {
            Some(v) => v == spec_equivalent(amount as int, price as int, buy),
            None => spec_equivalent(amount as int, price as int, buy) > u128::MAX,
        },
{
    if buy {
        _checked_mul_div(amount, _PRICE_DECIMAL, price)
    } else {
        _checked_mul_div(amount, price, _PRICE_DECIMAL)
    }
}

/// What `amount` is worth in the other asset at `price`.
pub fn _equivalent(amount: Amount, price: Amount, buy: bool) -> (r: Amount)
    requires
        buy ==> price > 0,
        spec_equivalent(amount as int, price as int, buy) <= u128::MAX,
    ensures
        r == spec_equivalent(amount as int, price as int, buy),
{
    _checked_equivalent(amount, price, buy).unwrap()
}

/// Converting an amount at a price and back never gives more than there was.
pub proof fn lemma_equivalent_round_trip(amount: int, price: int, buy: bool)
    requires
        amount >= 0,
        price > 0,
    ensures
        0 <= spec_equivalent(amount, price, buy),
        spec_equivalent(spec_equivalent(amount, price, buy), price, !buy) <= amount,
{
    let scale: int = 10_000_000;
    if buy {
        assert(0 <= (amount * scale) / price && (((amount * scale) / price) * price) / scale <= amount)
            by (nonlinear_arith)
            requires
                amount >= 0,
                price > 0,
                scale == 10_000_000,
        ;
    } else {
        assert(0 <= (amount * price) / scale && (((amount * price) / scale) * scale) / price <= amount)
            by (nonlinear_arith)
            requires
                amount >= 0,
                price > 0,
                scale == 10_000_000,
        ;
    }
}

/// More of an asset is worth no less of the other.
pub proof fn lemma_equivalent_monotone(smaller: int, larger: int, price: int, buy: bool)
    requires
        0 <= smaller <= larger,
        price > 0,
    ensures
        0 <= spec_equivalent(smaller, price, buy) <= spec_equivalent(larger, price, buy),
{
    let scale: int = 10_000_000;
    if buy {
        assert(0 <= (smaller * scale) / price <= (larger * scale) / price) by (nonlinear_arith)
            requires
                0 <= smaller <= larger,
                price > 0,
                scale == 10_000_000,
        ;
    } else {
        assert(0 <= (smaller * price) / scale <= (larger * price) / scale) by (nonlinear_arith)
            requires
                0 <= smaller <= larger,
                price > 0,
                scale == 10_000_000,
        ;
    }
}

} // verus!
