use vstd::prelude::*;
use vstd::arithmetic::power::{lemma_pow0, lemma_pow_increases, pow};
use crate::corelib::constants::{_BASE_PRICE, _HUNDRED_PERCENT};
use crate::corelib::tick_lib::{_tick_to_price, spec_tick_to_price};
use crate::corelib::wide_lib::_checked_mul_div;
use crate::market::{Market, MarketView};
use crate::types::{Asset, GetExchangeRateRequest, GetExchangeRateResult};

verus! {

pub type Tick = u64;

/// Ten to the power of `decimals`, where it fits in 128 bits.
pub fn _pow10(decimals: u32) -> (r: Option<u128>)
    ensures
        match r {
            Some(power) => power == pow(10, decimals as nat),
            None => pow(10, decimals as nat) > u128::MAX,
        },
{
    let mut power: u128 = 1;
    let mut done: u32 = 0;
    proof {
        lemma_pow0(10);
    }
    while done < decimals
        invariant
            done <= decimals,
            power == pow(10, done as nat),
        decreases decimals - done,
    {
        proof {
            vstd::arithmetic::power::lemma_pow1(10);
            vstd::arithmetic::power::lemma_pow_adds(10, done as nat, 1);
            lemma_pow_increases(10, (done + 1) as nat, decimals as nat);
        }
        power = match power.checked_mul(10) {
            Some(next) => next,
            None => {
                return None;
            },
        };
        done = done + 1;
    }
    Some(power)
}

/// The price of the market at `current_tick` in the scale of an oracle that
/// gives its rates with `decimals` decimals.
pub open spec fn spec_perp_price(current_tick: Tick, decimals: u32) -> int {
    (spec_tick_to_price(current_tick as int) * pow(10, decimals as nat)) / (_BASE_PRICE as int)
}

/// The price of the market in the scale of the oracle, where the scale and the
/// price fit in 128 bits.
pub fn _perp_price(current_tick: Tick, decimals: u32) -> (r: Option<u128>)
    ensures
        match r {
            Some(price) => price == spec_perp_price(current_tick, decimals) && pow(
                10,
                decimals as nat,
            ) <= u128::MAX,
            None => pow(10, decimals as nat) > u128::MAX || spec_perp_price(current_tick, decimals)
                > u128::MAX,
        },
{
    match _pow10(decimals) {
        Some(scale) => _checked_mul_div(_tick_to_price(current_tick), scale, _BASE_PRICE),
        None => None,
    }
}

/// The premium of the perp price over the spot price, in hundred-thousandths of a
/// percent of the spot price: above zero where the perp price is the higher one,
/// and rounded towards zero.
pub open spec fn spec_funding_rate_premium(perp_price: int, spot_price: int) -> int {
    if perp_price >= spot_price {
        ((perp_price - spot_price) * _HUNDRED_PERCENT as int) / spot_price
    } else {
        -(((spot_price - perp_price) * _HUNDRED_PERCENT as int) / spot_price)
    }
}

/// The size of the premium, without its sign.
pub open spec fn spec_funding_rate_magnitude(perp_price: int, spot_price: int) -> int {
    if perp_price >= spot_price {
        ((perp_price - spot_price) * _HUNDRED_PERCENT as int) / spot_price
    } else {
        ((spot_price - perp_price) * _HUNDRED_PERCENT as int) / spot_price
    }
}

/// The premium where there is one: `None` where the spot price is zero or the
/// premium does not fit in 64 signed bits.
pub fn _checked_funding_rate_premium(perp_price: u128, spot_price: u128) -> (r: Option<i64>)
    ensures
        match r {
            Some(premium) => spot_price > 0 && premium == spec_funding_rate_premium(
                perp_price as int,
                spot_price as int,
            ) && spec_funding_rate_magnitude(perp_price as int, spot_price as int) <= i64::MAX,
            None => spot_price == 0 || spec_funding_rate_magnitude(
                perp_price as int,
                spot_price as int,
            ) > i64::MAX,
        },
{
    let difference: u128 = if perp_price >= spot_price {
        perp_price - spot_price
    } else {
        spot_price - perp_price
    };
    let magnitude: u128 = match _checked_mul_div(difference, _HUNDRED_PERCENT as u128, spot_price) {
        Some(magnitude) => magnitude,
        None => {
            return None;
        },
    };
    if magnitude > 0x7fff_ffff_ffff_ffffu128 {
        return None;
    }
    let premium: i64 = magnitude as i64;
    if perp_price >= spot_price {
        Some(premium)
    } else {
        Some(-premium)
    }
}

/// The premium of the perp price over the spot price.
pub fn _calculate_funding_rate_premium(perp_price: u128, spot_price: u128) -> (r: i64)
    requires
        spot_price > 0,
        spec_funding_rate_magnitude(perp_price as int, spot_price as int) <= i64::MAX,
    ensures
        r == spec_funding_rate_premium(perp_price as int, spot_price as int),
{
    _checked_funding_rate_premium(perp_price, spot_price).unwrap()
}

/// What the oracle is asked for a round of funding: the latest rate of the pair
/// of the market.
pub fn _exchange_rate_request(base_asset: Asset, quote_asset: Asset) -> (request: GetExchangeRateRequest)
    ensures
        request.base_asset == base_asset,
        request.quote_asset == quote_asset,
        request.timestamp is None,
{
    GetExchangeRateRequest { base_asset, quote_asset, timestamp: None }
}

impl MarketView {
    /// Whether the premium of `perp_price` over `spot_price` can be settled.
    pub open spec fn spec_can_settle_funding_rate(self, perp_price: u128, spot_price: u128) -> bool {
        &&& spot_price > 0
        &&& spec_funding_rate_magnitude(perp_price as int, spot_price as int) <= i64::MAX
        &&& self.tracker.spec_can_settle(
            spec_funding_rate_magnitude(perp_price as int, spot_price as int) as u64,
            perp_price > spot_price,
        )
    }

    /// The market after the premium was settled: the side that is ahead pays the
    /// premium on its volume to the other.
    pub open spec fn spec_settle_funding_rate(self, perp_price: u128, spot_price: u128) -> MarketView {
        MarketView {
            tracker: self.tracker.spec_settle_funding_rate(
                spec_funding_rate_magnitude(perp_price as int, spot_price as int) as u64,
                perp_price > spot_price,
            ),
            ..self
        }
    }

    /// The market after a round of funding at `current_tick`, with the spot rate
    /// that the oracle gave: settled where the prices can be compared and the
    /// premium settled, and else as it was.
    pub open spec fn spec_funding_round(self, current_tick: Tick, rate: u64, decimals: u32) -> MarketView {
        let perp_price = spec_perp_price(current_tick, decimals);
        if pow(10, decimals as nat) <= u128::MAX && perp_price <= u128::MAX
            && self.spec_can_settle_funding_rate(perp_price as u128, rate as u128) {
            self.spec_settle_funding_rate(perp_price as u128, rate as u128)
        } else {
            self
        }
    }
}

/// A premium of zero is neither above nor below: the magnitude says so.
proof fn lemma_premium_sign(perp_price: int, spot_price: int)
    requires
        spot_price > 0,
        perp_price >= 0,
    ensures
        spec_funding_rate_premium(perp_price, spot_price) > 0 ==> perp_price > spot_price,
        spec_funding_rate_premium(perp_price, spot_price) >= 0 ==> spec_funding_rate_premium(
            perp_price,
            spot_price,
        ) == spec_funding_rate_magnitude(perp_price, spot_price),
        spec_funding_rate_premium(perp_price, spot_price) <= 0 ==> -spec_funding_rate_premium(
            perp_price,
            spot_price,
        ) == spec_funding_rate_magnitude(perp_price, spot_price),
        perp_price > spot_price && spec_funding_rate_premium(perp_price, spot_price) == 0
            ==> spec_funding_rate_magnitude(perp_price, spot_price) == 0,
{
    let scale = _HUNDRED_PERCENT as int;
    if perp_price >= spot_price {
        assert(((perp_price - spot_price) * scale) / spot_price >= 0) by (nonlinear_arith)
            requires
                perp_price >= spot_price,
                spot_price > 0,
                scale > 0,
        ;
    } else {
        assert(((spot_price - perp_price) * scale) / spot_price >= 0) by (nonlinear_arith)
            requires
                perp_price <= spot_price,
                spot_price > 0,
                scale > 0,
        ;
    }
}

impl Market {
    /// Whether the premium of `perp_price` over `spot_price` can be settled.
    pub fn _can_settle_funding_rate(&self, perp_price: u128, spot_price: u128) -> (b: bool)
        ensures
            b == self@.spec_can_settle_funding_rate(perp_price, spot_price),
    {
        proof {
            if spot_price > 0 {
                lemma_premium_sign(perp_price as int, spot_price as int);
            }
        }
        match _checked_funding_rate_premium(perp_price, spot_price) {
            Some(funding_rate) => {
                let magnitude: u64 = if funding_rate >= 0 {
                    funding_rate as u64
                } else {
                    (-funding_rate) as u64
                };
                self.tracker().can_settle_funding_rate(magnitude, perp_price > spot_price)
            },
            None => false,
        }
    }

    /// Settles the premium of `perp_price` over `spot_price` between the two
    /// sides.
    pub fn _settle_funding_rate(&mut self, perp_price: u128, spot_price: u128)
        requires
            old(self)@.spec_can_settle_funding_rate(perp_price, spot_price),
        ensures
            final(self)@ == old(self)@.spec_settle_funding_rate(perp_price, spot_price),
    {
        proof {
            lemma_premium_sign(perp_price as int, spot_price as int);
        }
        let funding_rate = _calculate_funding_rate_premium(perp_price, spot_price);
        let magnitude: u64 = if funding_rate >= 0 {
            funding_rate as u64
        } else {
            (-funding_rate) as u64
        };
        let mut tracker = self.tracker();
        tracker.settle_funding_rate(magnitude, perp_price > spot_price);
        self.set_tracker(tracker);
    }

    /// A round of funding with what the oracle answered. A round without a rate
    /// is skipped. Says whether the premium was settled; where it was not, the
    /// market is as it was.
    pub fn settle_funding_rate(&mut self, current_tick: Tick, answer: &GetExchangeRateResult) -> (settled:
        bool)
        ensures
            final(self)@ == (match answer {
                Ok(exchange_rate) => old(self)@.spec_funding_round(
                    current_tick,
                    exchange_rate.rate,
                    exchange_rate.metadata.decimals,
                ),
                Err(_) => old(self)@,
            }),
            !settled ==> final(self)@ == old(self)@,
            answer is Err ==> !settled,
    {
        match answer {
            Ok(exchange_rate) => self._settle_funding_round(
                current_tick,
                exchange_rate.rate,
                exchange_rate.metadata.decimals,
            ),
            Err(_) => false,
        }
    }

    /// A round of funding with the spot rate that the oracle gave, at `decimals`
    /// decimals. Says whether the premium was settled; where it was not, the
    /// market is as it was.
    pub fn _settle_funding_round(&mut self, current_tick: Tick, rate: u64, decimals: u32) -> (settled:
        bool)
        ensures
            final(self)@ == old(self)@.spec_funding_round(current_tick, rate, decimals),
            !settled ==> final(self)@ == old(self)@,
    {
        let perp_price: u128 = match _perp_price(current_tick, decimals) {
            Some(price) => price,
            None => {
                return false;
            },
        };
        let spot_price: u128 = rate as u128;
        if !self._can_settle_funding_rate(perp_price, spot_price) {
            return false;
        }
        self._settle_funding_rate(perp_price, spot_price);
        true
    }
}

} // verus!
