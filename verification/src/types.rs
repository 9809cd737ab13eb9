use vstd::prelude::*;
use crate::corelib::wide_lib::_checked_mul_div;
use crate::corelib::calc_lib::{
    _calc_shares,
    _calc_shares_value,
    _percentage128,
    spec_calc_shares,
    spec_calc_shares_value,
    spec_percentage,
};

verus! {

pub type Tick = u64;

pub type Amount = u128;

/// The class of an asset that the exchange-rate oracle knows.
#[derive(Clone, Copy, Debug, PartialEq, Eq, Structural)]
pub enum AssetClass {
    /// The cryptocurrency asset class.
    Cryptocurrency,
    /// The fiat currency asset class.
    FiatCurrency,
}

impl Default for AssetClass {
    fn default() -> (r: Self)
        ensures
            r == AssetClass::Cryptocurrency,
    {
        AssetClass::Cryptocurrency
    }
}

/// An asset of a pair that the oracle gives rates for.
#[derive(Clone, Debug)]
pub struct Asset {
    /// The symbol of the asset.
    pub symbol: String,
    /// The class of the asset.
    pub class: AssetClass,
}

/// What the oracle is asked: the rate of the base asset in the quote asset, at a
/// time or, without one, now.
#[derive(Clone, Debug)]
pub struct GetExchangeRateRequest {
    /// The base asset, the first of the pair.
    pub base_asset: Asset,
    /// The quote asset, the second of the pair.
    pub quote_asset: Asset,
    /// The time of the rate, if it is not to be the latest.
    pub timestamp: Option<u64>,
}

/// How the oracle arrived at a rate.
#[derive(Clone, Debug)]
pub struct ExchangeRateMetadata {
    /// The scaling factor for the exchange rate and the standard deviation.
    pub decimals: u32,
    /// The number of queried exchanges for the base asset.
    pub base_asset_num_queried_sources: usize,
    /// The number of rates successfully received from the queried sources for the base asset.
    pub base_asset_num_received_rates: usize,
    /// The number of queried exchanges for the quote asset.
    pub quote_asset_num_queried_sources: usize,
    /// The number of rates successfully received from the queried sources for the quote asset.
    pub quote_asset_num_received_rates: usize,
    /// The standard deviation of the received rates, scaled by the factor `10^decimals`.
    pub standard_deviation: u64,
    /// The timestamp of the beginning of the day for which the forex rates were retrieved, if any.
    pub forex_timestamp: Option<u64>,
}

/// A rate as the oracle gives it.
#[derive(Clone, Debug)]
pub struct ExchangeRate {
    /// The base asset.
    pub base_asset: Asset,
    /// The quote asset.
    pub quote_asset: Asset,
    /// The time of the rate.
    pub timestamp: u64,
    /// The median of the rates received, scaled by the factor `10^decimals` of the metadata.
    pub rate: u64,
    /// How the rate was arrived at.
    pub metadata: ExchangeRateMetadata,
}

/// Why the oracle returned no rate.
#[derive(Clone, Debug)]
pub enum ExchangeRateError {
    /// The call came from the anonymous principal.
    AnonymousPrincipalNotAllowed,
    /// The oracle is still retrieving a rate from an exchange.
    Pending,
    /// No rate was found for the base asset.
    CryptoBaseAssetNotFound,
    /// No rate was found for the quote asset.
    CryptoQuoteAssetNotFound,
    /// No stablecoin rate was found for a crypto/fiat pair.
    StablecoinRateNotFound,
    /// Too few stablecoin rates to determine the forex/USDT rate.
    StablecoinRateTooFewRates,
    /// The stablecoin rate is zero.
    StablecoinRateZeroRate,
    /// No rate for the forex asset at the given timestamp.
    ForexInvalidTimestamp,
    /// The forex base asset was not found.
    ForexBaseAssetNotFound,
    /// The forex quote asset was not found.
    ForexQuoteAssetNotFound,
    /// Neither forex asset was found.
    ForexAssetsNotFound,
    /// Too many active requests.
    RateLimited,
    /// The caller sent too few cycles.
    NotEnoughCycles,
    /// Too many collected rates deviate substantially.
    InconsistentRatesReceived,
    /// Any error added later.
    Other(OtherError),
}

/// The details of an `ExchangeRateError::Other`.
#[derive(Clone, Debug)]
pub struct OtherError {
    /// The identifier of the error.
    pub code: u32,
    /// A description of the error.
    pub description: String,
}

/// What the oracle answers.
pub type GetExchangeRateResult = Result<ExchangeRate, ExchangeRateError>;

/// The parameters of the market that change while it runs.
#[derive(Clone, Copy, Debug, PartialEq, Eq, Structural)]
pub struct StateDetails {
    /// Whether positions can be opened and closed.
    pub not_paused: bool,
    /// The tick at which the last swap ended.
    pub current_tick: Tick,
    /// Ten times the leverage that no position may reach.
    pub max_leveragex10: u8,
    /// The least collateral that opens a position.
    pub min_collateral: Amount,
    /// The multiple of the base token for assets that are worth less than the collateral asset.
    pub base_token_multiple: u8,
}

impl Default for StateDetails {
    fn default() -> (r: Self)
        ensures
            r == (StateDetails {
                not_paused: false,
                current_tick: 0,
                max_leveragex10: 0,
                min_collateral: 0,
                base_token_multiple: 0,
            }),
    {
        StateDetails {
            not_paused: false,
            current_tick: 0,
            max_leveragex10: 0,
            min_collateral: 0,
            base_token_multiple: 0,
        }
    }
}

/// The limit liquidity of one side of one tick, as three running totals.
///
/// `upper_bound` counts all that was ever placed. `lower_bound` is the fill
/// cursor: all that swaps have consumed and, folded into it, all that closing
/// orders have withdrawn unfilled. `lifetime_removed_liquidity` counts the
/// withdrawn part alone.
#[derive(Clone, Copy, Debug, PartialEq, Eq, Structural)]
pub struct LiquidityBoundary {
    pub upper_bound: Amount,
    pub lower_bound: Amount,
    pub lifetime_removed_liquidity: Amount,
}

impl Default for LiquidityBoundary {
    fn default() -> (r: Self)
        ensures
            r == LiquidityBoundary::spec_empty(),
    {
        LiquidityBoundary { upper_bound: 0, lower_bound: 0, lifetime_removed_liquidity: 0 }
    }
}

impl LiquidityBoundary {
    /// The boundary of a side on which nothing was placed yet.
    pub open spec fn spec_empty() -> Self {
        LiquidityBoundary { upper_bound: 0, lower_bound: 0, lifetime_removed_liquidity: 0 }
    }

    /// What was withdrawn is part of the cursor, and the cursor never passes what
    /// was placed: placed liquidity covers what swaps consumed plus what was
    /// withdrawn.
    pub open spec fn wf(self) -> bool {
        self.lifetime_removed_liquidity <= self.lower_bound <= self.upper_bound
    }

    /// The liquidity that swaps have consumed.
    pub open spec fn spec_consumed(self) -> int {
        self.lower_bound - self.lifetime_removed_liquidity
    }

    /// The liquidity that is still there to be swapped against.
    pub open spec fn spec_liquidity_within(self) -> int {
        self.upper_bound - self.lower_bound
    }

    /// Moves the fill cursor on by what a swap has consumed.
    pub fn _reduce_boundary(&mut self, amount: Amount)
        requires
            old(self).lower_bound + amount <= u128::MAX,
        ensures
            *final(self) == (LiquidityBoundary {
                lower_bound: (old(self).lower_bound + amount) as u128,
                ..*old(self)
            }),
    {
        self.lower_bound += amount;
    }

    /// The liquidity that is still there.
    pub fn _liquidity_within(&self) -> (r: Amount)
        requires
            self.lower_bound <= self.upper_bound,
        ensures
            r == self.spec_liquidity_within(),
    {
        return self.upper_bound - self.lower_bound;
    }

    /// Places `delta` more liquidity.
    pub fn _add_liquidity(&mut self, delta: Amount)
        requires
            old(self).upper_bound + delta <= u128::MAX,
        ensures
            *final(self) == (LiquidityBoundary {
                upper_bound: (old(self).upper_bound + delta) as u128,
                ..*old(self)
            }),
    {
        self.upper_bound += delta;
    }

    /// Withdraws `delta` of unfilled liquidity: the cursor and the count of all
    /// that was ever withdrawn both move on by it.
    pub fn _remove_liquidity(&mut self, delta: Amount)
        requires
            old(self).lower_bound + delta <= u128::MAX,
            old(self).lifetime_removed_liquidity + delta <= u128::MAX,
        ensures
            *final(self) == (LiquidityBoundary {
                lower_bound: (old(self).lower_bound + delta) as u128,
                lifetime_removed_liquidity: (old(self).lifetime_removed_liquidity + delta) as u128,
                ..*old(self)
            }),
    {
        self.lower_bound += delta;
        self.lifetime_removed_liquidity += delta
    }
}

/// The limit liquidity of one tick: base liquidity, which sell orders place and
/// buying swaps consume, and quote liquidity, which buy orders place and selling
/// swaps consume.
#[derive(Clone, Copy, Debug, PartialEq, Eq, Structural)]
pub struct TickDetails {
    /// The boundary of the base asset.
    pub liq_bounds_token0: LiquidityBoundary,
    /// The boundary of the quote asset.
    pub liq_bounds_token1: LiquidityBoundary,
}

impl Default for TickDetails {
    fn default() -> (r: Self)
        ensures
            r == TickDetails::spec_empty(),
    {
        TickDetails {
            liq_bounds_token0: LiquidityBoundary::default(),
            liq_bounds_token1: LiquidityBoundary::default(),
        }
    }
}

impl TickDetails {
    /// The details of a tick on which nothing was placed yet.
    pub open spec fn spec_empty() -> Self {
        TickDetails {
            liq_bounds_token0: LiquidityBoundary::spec_empty(),
            liq_bounds_token1: LiquidityBoundary::spec_empty(),
        }
    }

    /// Both sides are well formed.
    pub open spec fn wf(self) -> bool {
        self.liq_bounds_token0.wf() && self.liq_bounds_token1.wf()
    }

    /// The boundary that orders of the given direction place into: the quote side
    /// for a buy, the base side for a sell.
    pub open spec fn spec_side(self, buy: bool) -> LiquidityBoundary {
        if buy {
            self.liq_bounds_token1
        } else {
            self.liq_bounds_token0
        }
    }

    /// These details with the boundary of the given direction replaced.
    pub open spec fn spec_with_side(self, buy: bool, boundary: LiquidityBoundary) -> Self {
        if buy {
            TickDetails { liq_bounds_token1: boundary, ..self }
        } else {
            TickDetails { liq_bounds_token0: boundary, ..self }
        }
    }

    /// No liquidity is left on either side.
    pub open spec fn spec_is_cleared(self) -> bool {
        self.liq_bounds_token0.spec_liquidity_within() == 0
            && self.liq_bounds_token1.spec_liquidity_within() == 0
    }

    /// Places liquidity on the side of the given direction.
    pub fn _add_liquidity(&mut self, buy: bool, amount_in: Amount)
        requires
            old(self).spec_side(buy).upper_bound + amount_in <= u128::MAX,
        ensures
            *final(self) == old(self).spec_with_side(
                buy,
                LiquidityBoundary {
                    upper_bound: (old(self).spec_side(buy).upper_bound + amount_in) as u128,
                    ..old(self).spec_side(buy)
                },
            ),
    {
        if buy {
            self.liq_bounds_token1._add_liquidity(amount_in);
        } else {
            self.liq_bounds_token0._add_liquidity(amount_in);
        }
    }

    /// Withdraws unfilled liquidity from the side of the given direction.
    pub fn _remove_liquidity(&mut self, buy: bool, amount_out: Amount)
        requires
            old(self).spec_side(buy).lower_bound + amount_out <= u128::MAX,
            old(self).spec_side(buy).lifetime_removed_liquidity + amount_out <= u128::MAX,
        ensures
            *final(self) == old(self).spec_with_side(
                buy,
                LiquidityBoundary {
                    lower_bound: (old(self).spec_side(buy).lower_bound + amount_out) as u128,
                    lifetime_removed_liquidity: (old(self).spec_side(
                        buy,
                    ).lifetime_removed_liquidity + amount_out) as u128,
                    ..old(self).spec_side(buy)
                },
            ),
    {
        if buy {
            self.liq_bounds_token1._remove_liquidity(amount_out);
        } else {
            self.liq_bounds_token0._remove_liquidity(amount_out);
        }
    }
}

/// The pools of the long and of the short side: what each side's open positions
/// are worth together, and the shares that they hold of it.
#[derive(Clone, Copy, Debug, PartialEq, Eq, Structural)]
pub struct FundingRateTracker {
    pub net_volume_long: Amount,
    pub total_long_shares: Amount,
    pub net_volume_short: Amount,
    pub total_short_shares: Amount,
}

impl Default for FundingRateTracker {
    fn default() -> (r: Self)
        ensures
            r == (FundingRateTracker {
                net_volume_long: 0,
                total_long_shares: 0,
                net_volume_short: 0,
                total_short_shares: 0,
            }),
    {
        FundingRateTracker {
            net_volume_long: 0,
            total_long_shares: 0,
            net_volume_short: 0,
            total_short_shares: 0,
        }
    }
}

impl FundingRateTracker {
    /// The volume of one side.
    pub open spec fn spec_net_volume(self, long: bool) -> Amount {
        if long {
            self.net_volume_long
        } else {
            self.net_volume_short
        }
    }

    /// The shares of one side.
    pub open spec fn spec_total_shares(self, long: bool) -> Amount {
        if long {
            self.total_long_shares
        } else {
            self.total_short_shares
        }
    }

    /// This tracker with the pool of one side replaced.
    pub open spec fn spec_with_pool(self, long: bool, net_volume: Amount, total_shares: Amount) -> Self {
        if long {
            FundingRateTracker { net_volume_long: net_volume, total_long_shares: total_shares, ..self }
        } else {
            FundingRateTracker {
                net_volume_short: net_volume,
                total_short_shares: total_shares,
                ..self
            }
        }
    }

    /// The shares that a deposit of `delta` into one side is given.
    pub open spec fn spec_volume_share(self, delta: Amount, long: bool) -> int {
        spec_calc_shares(
            delta as int,
            self.spec_total_shares(long) as int,
            self.spec_net_volume(long) as int,
        )
    }

    /// The volume that `delta` shares of one side are worth.
    pub open spec fn spec_share_value(self, delta: Amount, long: bool) -> int {
        spec_calc_shares_value(
            delta as int,
            self.spec_total_shares(long) as int,
            self.spec_net_volume(long) as int,
        )
    }

    /// Whether `delta` can be added to one side without leaving the range of an
    /// amount.
    pub open spec fn spec_can_add(self, delta: Amount, long: bool) -> bool {
        &&& self.spec_volume_share(delta, long) + self.spec_total_shares(long) <= u128::MAX
        &&& self.spec_net_volume(long) + delta <= u128::MAX
    }

    /// This tracker after `delta` was added to one side.
    pub open spec fn spec_add_volume(self, delta: Amount, long: bool) -> Self {
        self.spec_with_pool(
            long,
            (self.spec_net_volume(long) + delta) as u128,
            (self.spec_total_shares(long) + self.spec_volume_share(delta, long)) as u128,
        )
    }

    /// This tracker after `delta` shares were taken out of one side.
    pub open spec fn spec_remove_volume(self, delta: Amount, long: bool) -> Self {
        self.spec_with_pool(
            long,
            (self.spec_net_volume(long) - self.spec_share_value(delta, long)) as u128,
            (self.spec_total_shares(long) - delta) as u128,
        )
    }

    /// Whether `delta` can be added to one side.
    pub fn can_add_volume(&self, delta: Amount, long: bool) -> (b: bool)
        ensures
            b == self.spec_can_add(delta, long),
    {
        let (total_shares, net_volume) = if long {
            (self.total_long_shares, self.net_volume_long)
        } else {
            (self.total_short_shares, self.net_volume_short)
        };
        if delta > u128::MAX - net_volume {
            return false;
        }
        if total_shares == 0 || net_volume == 0 {
            return delta <= u128::MAX - total_shares;
        }
        match _checked_mul_div(delta, total_shares, net_volume) {
            Some(shares) => shares <= u128::MAX - total_shares,
            None => false,
        }
    }

    /// Whether `delta` shares can be taken out of one side: the side has shares,
    /// and no fewer than `delta`.
    pub open spec fn spec_can_remove(self, delta: Amount, long: bool) -> bool {
        0 < self.spec_total_shares(long) && delta <= self.spec_total_shares(long)
    }

    /// Whether `delta` shares can be taken out of one side.
    pub fn can_remove_volume(&self, delta: Amount, long: bool) -> (b: bool)
        ensures
            b == self.spec_can_remove(delta, long),
    {
        let total_shares = if long {
            self.total_long_shares
        } else {
            self.total_short_shares
        };
        0 < total_shares && delta <= total_shares
    }

    /// Adds `delta` to the volume of one side and returns the shares given for it.
    pub fn add_volume(&mut self, delta: Amount, long: bool) -> (volume_share: Amount)
        requires
            old(self).spec_can_add(delta, long),
        ensures
            volume_share == old(self).spec_volume_share(delta, long),
            *final(self) == old(self).spec_add_volume(delta, long),
    {
        if long {
            let volume_share = _calc_shares(delta, self.total_long_shares, self.net_volume_long);
            self.total_long_shares += volume_share;
            self.net_volume_long += delta;
            return volume_share;
        } else {
            let volume_share = _calc_shares(delta, self.total_short_shares, self.net_volume_short);
            self.total_short_shares += volume_share;
            self.net_volume_short += delta;
            return volume_share;
        }
    }

    /// Takes `delta` shares out of one side and returns the volume they were worth.
    pub fn remove_volume(&mut self, delta: Amount, long: bool) -> (value: Amount)
        requires
            old(self).spec_can_remove(delta, long),
        ensures
            value == old(self).spec_share_value(delta, long),
            value <= old(self).spec_net_volume(long),
            *final(self) == old(self).spec_remove_volume(delta, long),
    {
        proof {
            lemma_share_value_bounded(
                delta as int,
                self.spec_total_shares(long) as int,
                self.spec_net_volume(long) as int,
            );
        }
        if long {
            let value = _calc_shares_value(delta, self.total_long_shares, self.net_volume_long);
            self.net_volume_long -= value;
            self.total_long_shares -= delta;
            return value;
        } else {
            let value = _calc_shares_value(delta, self.total_short_shares, self.net_volume_short);
            self.net_volume_short -= value;
            self.total_short_shares -= delta;
            return value;
        }
    }

    /// What a premium of `funding_rate` moves from the paying side to the other.
    pub open spec fn spec_settlement(self, funding_rate: u64, positive: bool) -> int {
        spec_percentage(funding_rate as int, self.spec_net_volume(positive) as int)
    }

    /// This tracker after the settlement: the payers' volume goes down by the
    /// settlement, the receivers' goes up by it, and no share changes hands.
    pub open spec fn spec_settle_funding_rate(self, funding_rate: u64, positive: bool) -> Self {
        let moved = self.spec_settlement(funding_rate, positive);
        if positive {
            FundingRateTracker {
                net_volume_long: (self.net_volume_long - moved) as u128,
                net_volume_short: (self.net_volume_short + moved) as u128,
                ..self
            }
        } else {
            FundingRateTracker {
                net_volume_long: (self.net_volume_long + moved) as u128,
                net_volume_short: (self.net_volume_short - moved) as u128,
                ..self
            }
        }
    }

    /// Whether a premium of `funding_rate` can be settled: the paying side has what
    /// is moved, and the other side has room for it.
    pub open spec fn spec_can_settle(self, funding_rate: u64, positive: bool) -> bool {
        &&& self.spec_settlement(funding_rate, positive) <= self.spec_net_volume(positive)
        &&& self.spec_net_volume(!positive) + self.spec_settlement(funding_rate, positive)
            <= u128::MAX
    }

    /// Whether a premium of `funding_rate` can be settled.
    pub fn can_settle_funding_rate(&self, funding_rate: u64, positive: bool) -> (b: bool)
        ensures
            b == self.spec_can_settle(funding_rate, positive),
    {
        let (paying, receiving) = if positive {
            (self.net_volume_long, self.net_volume_short)
        } else {
            (self.net_volume_short, self.net_volume_long)
        };
        match _checked_mul_div(
            funding_rate as u128,
            paying,
            crate::corelib::constants::_HUNDRED_PERCENT as u128,
        ) {
            Some(moved) => moved <= paying && moved <= u128::MAX - receiving,
            None => false,
        }
    }

    /// Settles a premium: longs pay shorts where it is positive, shorts pay longs
    /// where it is not.
    pub fn settle_funding_rate(&mut self, funding_rate: u64, positive: bool)
        requires
            old(self).spec_can_settle(funding_rate, positive),
        ensures
            *final(self) == old(self).spec_settle_funding_rate(funding_rate, positive),
    {
        if positive {
            let amount_to_settle = _percentage128(funding_rate, self.net_volume_long);
            self.net_volume_short += amount_to_settle;
            self.net_volume_long -= amount_to_settle;
        } else {
            let amount_to_settle = _percentage128(funding_rate, self.net_volume_short);
            self.net_volume_long += amount_to_settle;
            self.net_volume_short -= amount_to_settle
        }
    }
}

/// Shares of a pool are worth no more than the pool.
pub proof fn lemma_share_value_bounded(shares: int, total_shares: int, liquidity: int)
    requires
        0 <= shares <= total_shares,
        0 < total_shares,
        0 <= liquidity,
    ensures
        0 <= spec_calc_shares_value(shares, total_shares, liquidity) <= liquidity,
{
    assert(0 <= (shares * liquidity) / total_shares <= liquidity) by (nonlinear_arith)
        requires
            0 <= shares <= total_shares,
            0 < total_shares,
            0 <= liquidity,
    ;
}

} // verus!
