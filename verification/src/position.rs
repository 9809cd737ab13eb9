use vstd::prelude::*;
use crate::corelib::calc_lib::{_checked_interest, _percentage64, spec_percentage};
use crate::corelib::constants::{_DEFAULT_SWAP_SLIPPAGE, _ONE_BASIS_POINT, _ONE_HOUR, _ONE_PERCENT};
use crate::corelib::order_lib::{
    spec_can_open_order,
    spec_open_order,
    spec_opened_order,
    LimitOrder,
};
use crate::corelib::price_lib::{
    _checked_equivalent,
    _equivalent,
    lemma_equivalent_monotone,
    lemma_equivalent_round_trip,
    spec_equivalent,
};
use crate::corelib::tick_lib::{
    _def_max_tick,
    _tick_to_price,
    lemma_tick_to_price,
    spec_def_max_tick,
    spec_tick_to_price,
};
use crate::market::{Market, MarketView};
use crate::types::FundingRateTracker;

verus! {

pub type Amount = u128;

pub type Tick = u64;

pub type Time = u64;

/// How a position is to be opened.
#[derive(Clone, Copy, Debug, PartialEq, Eq, Structural)]
pub enum OrderType {
    /// At once, by a swap at the prices of the book.
    Market,
    /// By a limit order that waits in the book.
    Limit,
}

/// How a position stands in the market.
#[derive(Clone, Copy, Debug, PartialEq, Eq, Structural)]
pub enum PositionOrderType {
    /// The position is open.
    Market,
    /// The position waits for its limit order to be filled.
    Limit(LimitOrder),
}

/// A leveraged position.
#[derive(Clone, Copy, Debug, PartialEq, Eq, Structural)]
pub struct PositionDetails {
    /// The tick at which the position was opened.
    pub entry_tick: Tick,
    /// Whether the position is long.
    pub long: bool,
    /// The collateral in the position, in quote.
    pub collateral_value: Amount,
    /// The debt of the position, in quote.
    pub debt_value: Amount,
    /// The shares that the position holds of the volume of its side.
    pub volume_share: Amount,
    /// The interest rate of the debt, per hour.
    pub interest_rate: u32,
    /// How the position stands in the market.
    pub order_type: PositionOrderType,
    /// The time from which interest runs.
    pub timestamp: Time,
}

/// What the vault is told of the debt of a position: the debt that is left, the
/// debt that there was, and the interest that was paid.
#[derive(Clone, Copy, Debug, PartialEq, Eq, Structural)]
pub struct ManageDebtParams {
    pub new_debt: Amount,
    pub initial_debt: Amount,
    pub interest_received: Amount,
}

impl Default for ManageDebtParams {
    fn default() -> (r: Self)
        ensures
            r == (ManageDebtParams { new_debt: 0, initial_debt: 0, interest_received: 0 }),
    {
        ManageDebtParams { new_debt: 0, initial_debt: 0, interest_received: 0 }
    }
}

impl ManageDebtParams {
    /// A record of the debt that is left, the debt that there was and the interest
    /// that was paid.
    pub fn init(new_debt: Amount, initial_debt: Amount, interest_received: Amount) -> (r: Self)
        ensures
            r == (ManageDebtParams { new_debt, initial_debt, interest_received }),
    {
        ManageDebtParams { new_debt, initial_debt, interest_received }
    }
}

/// Why a position could not be opened, closed or converted.
#[derive(Clone, Copy, Debug, PartialEq, Eq, Structural)]
pub enum PositionError {
    /// The account has an unclosed position or a pending retry entry.
    Busy,
    /// The market is paused.
    Paused,
    /// The leverage is not below the maximum or below one, the collateral is below
    /// the minimum, or the tick has no price, names no basis point or, for a limit
    /// order, does not lie strictly inside the market.
    RangeError,
    /// The vault has not granted the debt.
    VaultReject,
    /// The swap has received nothing.
    NoLiquidity,
    /// An amount or a tick has left the range of its type.
    Overflow,
    /// The position does not fit the market: its order cannot be closed, or it
    /// holds shares that its side does not have.
    Inconsistent,
    /// What closing the position in full has brought does not cover its debt and
    /// interest.
    Underwater,
}

/// A quote amount in the asset of an order of its position: quote for a long,
/// base at the price of `tick` for a short.
pub open spec fn spec_in_order_asset(amount: int, tick: int, long: bool) -> int {
    if long {
        amount
    } else {
        spec_equivalent(amount, spec_tick_to_price(tick), true)
    }
}

/// An amount in the asset of an order of its position, in quote.
pub open spec fn spec_in_quote(amount: int, tick: int, long: bool) -> int {
    if long {
        amount
    } else {
        spec_equivalent(amount, spec_tick_to_price(tick), false)
    }
}

/// The size of the order of a position: its collateral and its debt, each in the
/// asset of the order.
pub open spec fn spec_order_size(collateral_value: int, debt_value: int, tick: int, long: bool) -> int {
    spec_in_order_asset(collateral_value, tick, long) + spec_in_order_asset(debt_value, tick, long)
}

/// What is left of an order is worth no more than the collateral and debt that
/// went into it.
pub proof fn lemma_remaining_value_bounded(
    collateral_value: int,
    debt_value: int,
    tick: int,
    long: bool,
    remaining: int,
)
    requires
        0 <= collateral_value,
        0 <= debt_value,
        0 <= remaining <= spec_order_size(collateral_value, debt_value, tick, long),
        long || tick > 0,
    ensures
        0 <= spec_in_quote(remaining, tick, long) <= collateral_value + debt_value,
{
    if !long {
        lemma_tick_to_price(tick);
        let scale: int = 10_000_000;
        assert(0 <= (remaining * tick) / scale <= collateral_value + debt_value) by (nonlinear_arith)
            requires
                0 <= collateral_value,
                0 <= debt_value,
                tick > 0,
                scale == 10_000_000,
                0 <= remaining <= (collateral_value * scale) / tick + (debt_value * scale) / tick,
        ;
    }
}

/// The size of the order of a position, where its tick has a price for it and
/// both the notional of the position and the size of the order fit in an amount.
pub open spec fn spec_checked_order_size(
    collateral_value: Amount,
    debt_value: Amount,
    tick: Tick,
    long: bool,
) -> Result<Amount, PositionError> {
    let size = spec_order_size(collateral_value as int, debt_value as int, tick as int, long);
    if !long && tick == 0 {
        Err(PositionError::RangeError)
    } else if collateral_value + debt_value > u128::MAX || size > u128::MAX {
        Err(PositionError::Overflow)
    } else {
        Ok(size as u128)
    }
}

/// The size of the order of a position.
pub fn _order_size(collateral_value: Amount, debt_value: Amount, tick: Tick, long: bool) -> (r: Result<
    Amount,
    PositionError,
>)
    ensures
        r == spec_checked_order_size(collateral_value, debt_value, tick, long),
{
    if !long && tick == 0 {
        return Err(PositionError::RangeError);
    }
    let notional: u128 = match collateral_value.checked_add(debt_value) {
        Some(notional) => notional,
        None => {
            return Err(PositionError::Overflow);
        },
    };
    if long {
        return Ok(notional);
    }
    let price = _tick_to_price(tick);
    proof {
        lemma_equivalent_round_trip(collateral_value as int, price as int, true);
        lemma_equivalent_round_trip(debt_value as int, price as int, true);
    }
    let collateral: u128 = match _checked_equivalent(collateral_value, price, true) {
        Some(amount) => amount,
        None => {
            return Err(PositionError::Overflow);
        },
    };
    let debt: u128 = match _checked_equivalent(debt_value, price, true) {
        Some(amount) => amount,
        None => {
            return Err(PositionError::Overflow);
        },
    };
    match collateral.checked_add(debt) {
        Some(size) => Ok(size),
        None => Err(PositionError::Overflow),
    }
}

/// The limit of a swap: the tick that the caller names where it lies within the
/// default limit of five percent, else that default; and half a percent from the
/// current tick where the caller names none.
pub open spec fn spec_max_or_default_max(max_tick: Option<Tick>, current_tick: Tick, buy: bool) -> int {
    match max_tick {
        Some(tick) => if buy && tick < spec_def_max_tick(current_tick as int, true) {
            tick as int
        } else if !buy && tick > spec_def_max_tick(current_tick as int, false) {
            tick as int
        } else {
            spec_def_max_tick(current_tick as int, buy)
        },
        None => if buy {
            current_tick + spec_percentage(_DEFAULT_SWAP_SLIPPAGE as int, current_tick as int)
        } else {
            current_tick - spec_percentage(_DEFAULT_SWAP_SLIPPAGE as int, current_tick as int)
        },
    }
}

/// The limit of a swap.
pub fn max_or_default_max(max_tick: Option<Tick>, current_tick: Tick, buy: bool) -> (r: Tick)
    requires
        buy ==> spec_def_max_tick(current_tick as int, true) <= u64::MAX,
    ensures
        r == spec_max_or_default_max(max_tick, current_tick, buy),
{
    assert(0 <= (_DEFAULT_SWAP_SLIPPAGE * current_tick) / 10_000_000 <= ((5 * _ONE_PERCENT)
        * current_tick) / 10_000_000 <= current_tick) by (nonlinear_arith)
        requires
            _DEFAULT_SWAP_SLIPPAGE == 50_000,
            _ONE_PERCENT == 100_000,
            current_tick >= 0,
    ;
    match max_tick {
        Some(tick) => {
            if buy && tick < _def_max_tick(current_tick, true) {
                return tick;
            };
            if !buy && tick > _def_max_tick(current_tick, false) {
                return tick;
            }
        },
        None => {
            if buy {
                return current_tick + _percentage64(_DEFAULT_SWAP_SLIPPAGE, current_tick);
            } else {
                return current_tick - _percentage64(_DEFAULT_SWAP_SLIPPAGE, current_tick);
            }
        },
    }
    return _def_max_tick(current_tick, buy);
}

/// What opening a position gives: the position, the tick at which the market
/// stands after it, the ticks that were crossed, and the market after it.
pub type Opened = (PositionDetails, Tick, Seq<Tick>, MarketView);

/// What is left of the debt of a market position whose swap has left
/// `remaining_value` unpaid: what is left unpaid is taken off the debt first.
pub open spec fn spec_resulting_debt(debt_value: int, remaining_value: int) -> int {
    if remaining_value >= debt_value {
        0
    } else {
        debt_value - remaining_value
    }
}

/// What is left of the collateral of such a position: what is left unpaid beyond
/// the debt is taken off the collateral.
pub open spec fn spec_resulting_collateral(
    collateral_value: int,
    debt_value: int,
    remaining_value: int,
) -> int {
    if remaining_value >= debt_value {
        collateral_value - (remaining_value - debt_value)
    } else {
        collateral_value
    }
}

impl MarketView {
    /// Opening a position by a limit order. The tick of the order has to lie
    /// strictly inside the market, below the current tick for a long and above it
    /// for a short, has to have a price and has to name a basis point. The order
    /// holds collateral and debt together; the position waits for it, with no
    /// share and no time yet.
    pub open spec fn spec_open_limit_position(
        self,
        long: bool,
        collateral_value: Amount,
        debt_value: Amount,
        interest_rate: u32,
        current_tick: Tick,
        max_tick: Tick,
    ) -> Result<Opened, PositionError> {
        let size = spec_checked_order_size(collateral_value, debt_value, max_tick, long);
        let order = LimitOrder {
            order_size: size->Ok_0,
            ref_tick: max_tick,
            buy: long,
            init_lower_bound: 0,
            init_removed_liquidity: 0,
        };
        if (long && max_tick >= current_tick) || (!long && max_tick <= current_tick) || max_tick
            == 0 || max_tick % _ONE_BASIS_POINT != 0 {
            Err(PositionError::RangeError)
        } else if size is Err || !spec_can_open_order(self.ticks, order) {
            Err(PositionError::Overflow)
        } else {
            Ok(
                (
                    PositionDetails {
                        long,
                        entry_tick: max_tick,
                        collateral_value,
                        debt_value,
                        interest_rate,
                        volume_share: 0,
                        order_type: PositionOrderType::Limit(spec_opened_order(self.ticks, order)),
                        timestamp: 0,
                    },
                    current_tick,
                    Seq::empty(),
                    MarketView {
                        bitmaps: spec_open_order(self.bitmaps, self.ticks, order).0,
                        ticks: spec_open_order(self.bitmaps, self.ticks, order).1,
                        ..self
                    },
                ),
            )
        }
    }

    /// Opening a position by a swap of collateral and debt together, from the
    /// current tick to `max_tick`. A swap that receives nothing opens no position.
    /// What the swap could not pay goes back, off the debt first and then off the
    /// collateral. The position enters at the tick where the swap ended, with the
    /// share that its value is given of the volume of its side: for a long what
    /// was paid, for a short what was received.
    pub open spec fn spec_open_market_position(
        self,
        long: bool,
        collateral_value: Amount,
        debt_value: Amount,
        interest_rate: u32,
        current_tick: Tick,
        max_tick: Tick,
        now: Time,
    ) -> Result<Opened, PositionError> {
        let size = spec_checked_order_size(collateral_value, debt_value, current_tick, long);
        let swapped = self.spec_swap(size->Ok_0, long, current_tick, max_tick);
        let remaining_value = spec_in_quote(swapped.amount_remaining as int, current_tick as int, long);
        let position_value = if long {
            collateral_value + debt_value - remaining_value
        } else {
            swapped.amount_out as int
        };
        if size is Err {
            Err(size->Err_0)
        } else if swapped.amount_out == 0 {
            Err(PositionError::NoLiquidity)
        } else if !self.tracker.spec_can_add(position_value as u128, long) {
            Err(PositionError::Overflow)
        } else {
            Ok(
                (
                    PositionDetails {
                        long,
                        entry_tick: swapped.resulting_tick,
                        collateral_value: spec_resulting_collateral(
                            collateral_value as int,
                            debt_value as int,
                            remaining_value,
                        ) as u128,
                        debt_value: spec_resulting_debt(debt_value as int, remaining_value) as u128,
                        interest_rate,
                        volume_share: self.tracker.spec_volume_share(position_value as u128, long) as u128,
                        order_type: PositionOrderType::Market,
                        timestamp: now,
                    },
                    swapped.resulting_tick,
                    swapped.crossed_ticks,
                    MarketView {
                        bitmaps: swapped.bitmaps,
                        ticks: swapped.ticks,
                        tracker: self.tracker.spec_add_volume(position_value as u128, long),
                    },
                ),
            )
        }
    }

    /// Opening a position, by a limit order or by a swap.
    pub open spec fn spec_open_position(
        self,
        long: bool,
        order_type: OrderType,
        collateral_value: Amount,
        debt_value: Amount,
        interest_rate: u32,
        current_tick: Tick,
        max_tick: Tick,
        now: Time,
    ) -> Result<Opened, PositionError> {
        match order_type {
            OrderType::Limit => self.spec_open_limit_position(
                long,
                collateral_value,
                debt_value,
                interest_rate,
                current_tick,
                max_tick,
            ),
            OrderType::Market => self.spec_open_market_position(
                long,
                collateral_value,
                debt_value,
                interest_rate,
                current_tick,
                max_tick,
                now,
            ),
        }
    }
}

/// Whether what opening a position returned and left behind is what `expected`
/// holds. Where opening fails, the market is what it was.
pub open spec fn spec_opened_as(
    r: Result<(PositionDetails, Tick, Vec<Tick>), PositionError>,
    before: MarketView,
    after: MarketView,
    expected: Result<Opened, PositionError>,
) -> bool {
    match r {
        Ok(opened) => expected == Ok::<Opened, PositionError>(
            (opened.0, opened.1, opened.2@, after),
        ),
        Err(error) => expected == Err::<Opened, PositionError>(error) && after == before,
    }
}

impl Market {
    /// The shares that `position_value` is given of the volume of its side.
    pub fn _calc_position_volume_share(&mut self, position_value: Amount, long: bool) -> (r: Amount)
        requires
            old(self)@.tracker.spec_can_add(position_value, long),
        ensures
            r == old(self)@.tracker.spec_volume_share(position_value, long),
            final(self)@ == (MarketView {
                tracker: old(self)@.tracker.spec_add_volume(position_value, long),
                ..old(self)@
            }),
    {
        let mut tracker = self.tracker();
        let volume_share = tracker.add_volume(position_value, long);
        self.set_tracker(tracker);
        volume_share
    }

    /// The volume that `volume_share` of one side is worth, taken out of that side.
    pub fn _calc_position_realised_val(&mut self, volume_share: Amount, long: bool) -> (r: Amount)
        requires
            old(self)@.tracker.spec_can_remove(volume_share, long),
        ensures
            r == old(self)@.tracker.spec_share_value(volume_share, long),
            r <= old(self)@.tracker.spec_net_volume(long),
            final(self)@ == (MarketView {
                tracker: old(self)@.tracker.spec_remove_volume(volume_share, long),
                ..old(self)@
            }),
    {
        let mut tracker = self.tracker();
        let value = tracker.remove_volume(volume_share, long);
        self.set_tracker(tracker);
        value
    }

    /// Opens a position by a limit order at `max_tick`.
    pub fn _open_limit_position(
        &mut self,
        long: bool,
        collateral_value: Amount,
        debt_value: Amount,
        interest_rate: u32,
        current_tick: Tick,
        max_tick: Tick,
    ) -> (r: Result<(PositionDetails, Tick, Vec<Tick>), PositionError>)
        ensures
            final(self)@.wf(),
            r matches Ok(opened) ==> opened.0.collateral_value <= collateral_value
                && opened.0.debt_value <= debt_value,
            spec_opened_as(
                r,
                old(self)@,
                final(self)@,
                old(self)@.spec_open_limit_position(
                    long,
                    collateral_value,
                    debt_value,
                    interest_rate,
                    current_tick,
                    max_tick,
                ),
            ),
    {
        proof {
            use_type_invariant(&*self);
        }
        let entry_tick: Tick = max_tick;
        // A limit order cannot be placed at the current tick or beyond it.
        if (long && entry_tick >= current_tick) || (!long && entry_tick <= current_tick)
            || entry_tick == 0 || entry_tick % _ONE_BASIS_POINT != 0 {
            return Err(PositionError::RangeError);
        }
        let size: u128 = match _order_size(collateral_value, debt_value, entry_tick, long) {
            Ok(size) => size,
            Err(error) => {
                return Err(error);
            },
        };
        let mut order = LimitOrder::new(size, entry_tick, long);
        if !self._can_open_order(&order) {
            return Err(PositionError::Overflow);
        }
        self._open_order(&mut order);
        let position = PositionDetails {
            long,
            entry_tick,
            collateral_value,
            debt_value,
            interest_rate,
            volume_share: 0,
            order_type: PositionOrderType::Limit(order),
            timestamp: 0,
        };
        Ok((position, current_tick, Vec::new()))
    }

    /// Opens a position by a swap from `current_tick` to `max_tick`.
    fn _open_market_position(
        &mut self,
        long: bool,
        collateral_value: Amount,
        debt_value: Amount,
        interest_rate: u32,
        current_tick: Tick,
        max_tick: Tick,
        now: Time,
    ) -> (r: Result<(PositionDetails, Tick, Vec<Tick>), PositionError>)
        ensures
            final(self)@.wf(),
            r matches Ok(opened) ==> opened.0.collateral_value <= collateral_value
                && opened.0.debt_value <= debt_value,
            spec_opened_as(
                r,
                old(self)@,
                final(self)@,
                old(self)@.spec_open_market_position(
                    long,
                    collateral_value,
                    debt_value,
                    interest_rate,
                    current_tick,
                    max_tick,
                    now,
                ),
            ),
    {
        proof {
            use_type_invariant(&*self);
        }
        let size: u128 = match _order_size(collateral_value, debt_value, current_tick, long) {
            Ok(size) => size,
            Err(error) => {
                return Err(error);
            },
        };
        let saved = self.snapshot();
        let (amount_out, amount_remaining, resulting_tick, crossed_ticks) = self._swap(
            size,
            long,
            current_tick,
            max_tick,
        );
        if amount_out == 0 {
            return Err(PositionError::NoLiquidity);
        }
        proof {
            lemma_remaining_value_bounded(
                collateral_value as int,
                debt_value as int,
                current_tick as int,
                long,
                amount_remaining as int,
            );
        }
        // What the swap could not pay, in quote.
        let amount_remaining_value: u128 = if long {
            amount_remaining
        } else {
            _equivalent(amount_remaining, _tick_to_price(current_tick), false)
        };
        let unused_collateral_value: u128;
        let unused_debt_value: u128;
        if amount_remaining_value >= debt_value {
            unused_debt_value = debt_value;
            unused_collateral_value = amount_remaining_value - debt_value;
        } else {
            unused_debt_value = amount_remaining_value;
            unused_collateral_value = 0;
        }
        let resulting_debt_value: u128 = debt_value - unused_debt_value;
        let resulting_collateral_value: u128 = collateral_value - unused_collateral_value;
        let position_value: u128 = if long {
            resulting_collateral_value + resulting_debt_value
        } else {
            amount_out
        };
        if !self.tracker().can_add_volume(position_value, long) {
            *self = saved;
            return Err(PositionError::Overflow);
        }
        let volume_share = self._calc_position_volume_share(position_value, long);
        let position = PositionDetails {
            long,
            entry_tick: resulting_tick,
            collateral_value: resulting_collateral_value,
            debt_value: resulting_debt_value,
            interest_rate,
            volume_share,
            order_type: PositionOrderType::Market,
            timestamp: now,
        };
        Ok((position, resulting_tick, crossed_ticks))
    }

    /// Opens a long position by a swap that buys.
    pub fn _open_market_long_position(
        &mut self,
        collateral_value: Amount,
        debt_value: Amount,
        interest_rate: u32,
        current_tick: Tick,
        max_tick: Tick,
        now: Time,
    ) -> (r: Result<(PositionDetails, Tick, Vec<Tick>), PositionError>)
        ensures
            final(self)@.wf(),
            r matches Ok(opened) ==> opened.0.collateral_value <= collateral_value
                && opened.0.debt_value <= debt_value,
            spec_opened_as(
                r,
                old(self)@,
                final(self)@,
                old(self)@.spec_open_market_position(
                    true,
                    collateral_value,
                    debt_value,
                    interest_rate,
                    current_tick,
                    max_tick,
                    now,
                ),
            ),
    {
        proof {
            use_type_invariant(&*self);
        }
        self._open_market_position(
            true,
            collateral_value,
            debt_value,
            interest_rate,
            current_tick,
            max_tick,
            now,
        )
    }

    /// Opens a short position by a swap that sells.
    pub fn _open_market_short_position(
        &mut self,
        collateral_value: Amount,
        debt_value: Amount,
        interest_rate: u32,
        current_tick: Tick,
        max_tick: Tick,
        now: Time,
    ) -> (r: Result<(PositionDetails, Tick, Vec<Tick>), PositionError>)
        ensures
            final(self)@.wf(),
            r matches Ok(opened) ==> opened.0.collateral_value <= collateral_value
                && opened.0.debt_value <= debt_value,
            spec_opened_as(
                r,
                old(self)@,
                final(self)@,
                old(self)@.spec_open_market_position(
                    false,
                    collateral_value,
                    debt_value,
                    interest_rate,
                    current_tick,
                    max_tick,
                    now,
                ),
            ),
    {
        proof {
            use_type_invariant(&*self);
        }
        self._open_market_position(
            false,
            collateral_value,
            debt_value,
            interest_rate,
            current_tick,
            max_tick,
            now,
        )
    }

    /// Opens a position and returns it with the tick at which the market stands
    /// after it and the ticks that were crossed.
    pub fn _open_position(
        &mut self,
        long: bool,
        order_type: OrderType,
        collateral_value: Amount,
        debt_value: Amount,
        interest_rate: u32,
        current_tick: Tick,
        max_tick: Tick,
        now: Time,
    ) -> (r: Result<(PositionDetails, Tick, Vec<Tick>), PositionError>)
        ensures
            final(self)@.wf(),
            r matches Ok(opened) ==> opened.0.collateral_value <= collateral_value
                && opened.0.debt_value <= debt_value,
            spec_opened_as(
                r,
                old(self)@,
                final(self)@,
                old(self)@.spec_open_position(
                    long,
                    order_type,
                    collateral_value,
                    debt_value,
                    interest_rate,
                    current_tick,
                    max_tick,
                    now,
                ),
            ),
    {
        proof {
            use_type_invariant(&*self);
        }
        match order_type {
            OrderType::Limit => self._open_limit_position(
                long,
                collateral_value,
                debt_value,
                interest_rate,
                current_tick,
                max_tick,
            ),
            OrderType::Market => if long {
                self._open_market_long_position(
                    collateral_value,
                    debt_value,
                    interest_rate,
                    current_tick,
                    max_tick,
                    now,
                )
            } else {
                self._open_market_short_position(
                    collateral_value,
                    debt_value,
                    interest_rate,
                    current_tick,
                    max_tick,
                    now,
                )
            },
        }
    }
}

/// What settling a position gives: what the owner receives, what the vault is
/// told of the debt, the position after it, and the pools after it.
pub type Settled = (Amount, ManageDebtParams, PositionDetails, FundingRateTracker);

/// The time from which interest runs on a position that was closed in part at
/// `now`: `now` where the position is less than an hour old, else what it was.
pub open spec fn spec_refreshed_timestamp(timestamp: Time, now: Time) -> Time {
    if timestamp + _ONE_HOUR > now {
        now
    } else {
        timestamp
    }
}

/// A market position after a swap that closed it in part. The swap brought
/// `amount_out_value`; `amount_remaining_value` of the position is still open.
/// Where the proceeds do not cover debt and interest, the owner receives nothing
/// and the shortfall stays as debt; interest counts as paid as far as the proceeds
/// go beyond the debt. Where they cover both, the debt is paid, the owner receives
/// the rest, and what is still open becomes the collateral. In both cases the
/// position enters anew at `resulting_tick`, with the share that what is still
/// open is given of the volume of its side.
pub open spec fn spec_update_market_position_after_swap(
    tracker: FundingRateTracker,
    position: PositionDetails,
    resulting_tick: Tick,
    amount_out_value: Amount,
    amount_remaining_value: Amount,
    interest_value: Amount,
    now: Time,
) -> Result<Settled, PositionError> {
    let initial_debt = position.debt_value;
    let total_fee_value = initial_debt + interest_value;
    let updated = PositionDetails {
        volume_share: tracker.spec_volume_share(amount_remaining_value, position.long) as u128,
        entry_tick: resulting_tick,
        timestamp: spec_refreshed_timestamp(position.timestamp, now),
        ..position
    };
    if total_fee_value > u128::MAX || !tracker.spec_can_add(amount_remaining_value, position.long) {
        Err(PositionError::Overflow)
    } else if amount_out_value < total_fee_value {
        Ok(
            (
                0,
                ManageDebtParams {
                    new_debt: (total_fee_value - amount_out_value) as u128,
                    initial_debt,
                    interest_received: if amount_out_value > initial_debt {
                        (amount_out_value - initial_debt) as u128
                    } else {
                        0
                    },
                },
                PositionDetails { debt_value: (total_fee_value - amount_out_value) as u128, ..updated },
                tracker.spec_add_volume(amount_remaining_value, position.long),
            ),
        )
    } else {
        Ok(
            (
                (amount_out_value - total_fee_value) as u128,
                ManageDebtParams { new_debt: 0, initial_debt, interest_received: interest_value },
                PositionDetails {
                    debt_value: 0,
                    collateral_value: amount_remaining_value,
                    ..updated
                },
                tracker.spec_add_volume(amount_remaining_value, position.long),
            ),
        )
    }
}

/// A limit position turned into a market position, once its order was closed
/// with `amount_remaining_value` of it unfilled. What is unfilled goes back, off
/// the debt first and then off the collateral, which the owner receives. What was
/// filled is the value of the position, and is given its share of the volume of
/// its side. Interest runs from `now`.
pub open spec fn spec_convert_limit_position(
    tracker: FundingRateTracker,
    position: PositionDetails,
    amount_remaining_value: Amount,
    now: Time,
) -> Result<Settled, PositionError> {
    let initial_debt = position.debt_value;
    let remaining_order_value = position.collateral_value + position.debt_value
        - amount_remaining_value;
    let removed_collateral = if amount_remaining_value > initial_debt {
        amount_remaining_value - initial_debt
    } else {
        0
    };
    let new_debt = if amount_remaining_value > initial_debt {
        0
    } else {
        initial_debt - amount_remaining_value
    };
    if remaining_order_value < 0 {
        Err(PositionError::Inconsistent)
    } else if remaining_order_value > u128::MAX || !tracker.spec_can_add(
        remaining_order_value as u128,
        position.long,
    ) {
        Err(PositionError::Overflow)
    } else {
        Ok(
            (
                removed_collateral as u128,
                ManageDebtParams { new_debt: new_debt as u128, initial_debt, interest_received: 0 },
                PositionDetails {
                    debt_value: new_debt as u128,
                    collateral_value: (position.collateral_value - removed_collateral) as u128,
                    volume_share: tracker.spec_volume_share(
                        remaining_order_value as u128,
                        position.long,
                    ) as u128,
                    order_type: PositionOrderType::Market,
                    timestamp: now,
                    ..position
                },
                tracker.spec_add_volume(remaining_order_value as u128, position.long),
            ),
        )
    }
}

/// Whether what a settlement returned and left behind is what `expected` holds.
/// Where the settlement fails, position and pools are what they were.
pub open spec fn spec_settled_as(
    r: Result<(Amount, ManageDebtParams), PositionError>,
    position_before: PositionDetails,
    position_after: PositionDetails,
    before: MarketView,
    after: MarketView,
    expected: Result<Settled, PositionError>,
) -> bool {
    match r {
        Ok(settled) => expected == Ok::<Settled, PositionError>(
            (settled.0, settled.1, position_after, after.tracker),
        ) && after == (MarketView { tracker: after.tracker, ..before }),
        Err(error) => expected == Err::<Settled, PositionError>(error) && after == before
            && position_after == position_before,
    }
}

impl Market {
    /// Settles a market position after a swap that closed it in part.
    pub fn _update_market_position_after_swap(
        &mut self,
        position: &mut PositionDetails,
        resulting_tick: Tick,
        amount_out_value: Amount,
        amount_remaining_value: Amount,
        interest_value: Amount,
        now: Time,
    ) -> (r: Result<(Amount, ManageDebtParams), PositionError>)
        ensures
            spec_settled_as(
                r,
                *old(position),
                *final(position),
                old(self)@,
                final(self)@,
                spec_update_market_position_after_swap(
                    old(self)@.tracker,
                    *old(position),
                    resulting_tick,
                    amount_out_value,
                    amount_remaining_value,
                    interest_value,
                    now,
                ),
            ),
    {
        let initial_debt: u128 = position.debt_value;
        let total_fee_value: u128 = match initial_debt.checked_add(interest_value) {
            Some(total) => total,
            None => {
                return Err(PositionError::Overflow);
            },
        };
        if !self.tracker().can_add_volume(amount_remaining_value, position.long) {
            return Err(PositionError::Overflow);
        }
        let profit: u128;
        let manage_debt_params: ManageDebtParams;
        if amount_out_value < total_fee_value {
            // Interest is paid as far as the proceeds go beyond the debt.
            let interest_received_value: u128 = if amount_out_value > position.debt_value {
                amount_out_value - position.debt_value
            } else {
                0
            };
            position.debt_value = total_fee_value - amount_out_value;
            manage_debt_params =
            ManageDebtParams::init(position.debt_value, initial_debt, interest_received_value);
            profit = 0;
        } else {
            position.debt_value = 0;
            position.collateral_value = amount_remaining_value;
            manage_debt_params = ManageDebtParams::init(0, initial_debt, interest_value);
            profit = amount_out_value - total_fee_value;
        }
        let new_volume_share = self._calc_position_volume_share(amount_remaining_value, position.long);
        position.volume_share = new_volume_share;
        position.entry_tick = resulting_tick;
        // A position that is less than an hour old starts its hour anew.
        let young: bool = match position.timestamp.checked_add(_ONE_HOUR) {
            Some(end) => end > now,
            None => true,
        };
        if young {
            position.timestamp = now;
        }
        return Ok((profit, manage_debt_params));
    }

    /// Turns a limit position into a market position.
    pub fn _convert_limit_position(
        &mut self,
        position: &mut PositionDetails,
        amount_remaining_value: Amount,
        now: Time,
    ) -> (r: Result<(Amount, ManageDebtParams), PositionError>)
        ensures
            spec_settled_as(
                r,
                *old(position),
                *final(position),
                old(self)@,
                final(self)@,
                spec_convert_limit_position(
                    old(self)@.tracker,
                    *old(position),
                    amount_remaining_value,
                    now,
                ),
            ),
    {
        let initial_debt: u128 = position.debt_value;
        let removed_collateral: u128;
        let new_debt: u128;
        if amount_remaining_value > initial_debt {
            removed_collateral = amount_remaining_value - initial_debt;
            new_debt = 0;
        } else {
            removed_collateral = 0;
            new_debt = initial_debt - amount_remaining_value;
        }
        if removed_collateral > position.collateral_value {
            return Err(PositionError::Inconsistent);
        }
        let new_collateral: u128 = position.collateral_value - removed_collateral;
        // The value of what was filled.
        let remaining_order_value: u128 = match new_collateral.checked_add(new_debt) {
            Some(value) => value,
            None => {
                return Err(PositionError::Overflow);
            },
        };
        if !self.tracker().can_add_volume(remaining_order_value, position.long) {
            return Err(PositionError::Overflow);
        }
        position.debt_value = new_debt;
        position.collateral_value = new_collateral;
        let volume_share = self._calc_position_volume_share(remaining_order_value, position.long);
        position.volume_share = volume_share;
        position.order_type = PositionOrderType::Market;
        position.timestamp = now;
        let manage_debt_params = ManageDebtParams::init(position.debt_value, initial_debt, 0);
        return Ok((removed_collateral, manage_debt_params));
    }
}

/// What closing a market position gives: what the owner receives, the tick at
/// which the market stands after it, the ticks that were crossed, what the vault
/// is told of the debt, whether the position is gone, the position after it, and
/// the market after it.
pub type MarketClosed = (Amount, Tick, Seq<Tick>, ManageDebtParams, bool, PositionDetails, MarketView);

/// What closing a limit position gives: what the owner receives, what the vault
/// is told of the debt, whether the position is gone, the position after it, and
/// the market after it.
pub type LimitClosed = (Amount, ManageDebtParams, bool, PositionDetails, MarketView);

impl MarketView {
    /// Closing a market position as a long (`long`) or as a short, by a swap from
    /// `current_tick` to `stopping_tick` against the direction of the position.
    ///
    /// The shares of the position are taken out of the volume of its side. A long
    /// sells the base that their value bought at the entry tick; a short buys with
    /// their value. The proceeds are counted in quote. Interest is charged on the
    /// debt by the hour. Where the swap could not pay all, the position stays open
    /// with what is left, settled as `spec_update_market_position_after_swap`
    /// says. Where it paid all, the position is gone: the owner receives the
    /// proceeds less debt and interest, which are paid in full.
    pub open spec fn spec_close_market_position(
        self,
        long: bool,
        position: PositionDetails,
        current_tick: Tick,
        stopping_tick: Tick,
        now: Time,
    ) -> Result<MarketClosed, PositionError> {
        let realised_value = self.tracker.spec_share_value(position.volume_share, long);
        let tracker = self.tracker.spec_remove_volume(position.volume_share, long);
        let realised_size = spec_in_order_asset(realised_value, position.entry_tick as int, !long);
        let interest = crate::corelib::calc_lib::spec_calc_interest(
            position.debt_value as int,
            position.interest_rate as int,
            position.timestamp as int,
            now as int,
        );
        let swapped = self.spec_swap(realised_size as u128, !long, current_tick, stopping_tick);
        let amount_out_value = if long {
            swapped.amount_out as int
        } else {
            spec_in_quote(swapped.amount_out as int, current_tick as int, false)
        };
        let amount_remaining_value = if long {
            spec_in_quote(swapped.amount_remaining as int, position.entry_tick as int, false)
        } else {
            swapped.amount_remaining as int
        };
        if (long && position.entry_tick == 0) || !self.tracker.spec_can_remove(
            position.volume_share,
            long,
        ) {
            Err(PositionError::Inconsistent)
        } else if realised_size > u128::MAX || spec_percentage(
            position.interest_rate as int,
            position.debt_value as int,
        ) > u128::MAX || interest > u128::MAX || position.debt_value + interest > u128::MAX
            || amount_out_value > u128::MAX {
            Err(PositionError::Overflow)
        } else if swapped.amount_remaining > 0 {
            match spec_update_market_position_after_swap(
                tracker,
                position,
                swapped.resulting_tick,
                amount_out_value as u128,
                amount_remaining_value as u128,
                interest as u128,
                now,
            ) {
                Ok(settled) => Ok(
                    (
                        settled.0,
                        swapped.resulting_tick,
                        swapped.crossed_ticks,
                        settled.1,
                        false,
                        settled.2,
                        MarketView { bitmaps: swapped.bitmaps, ticks: swapped.ticks, tracker: settled.3 },
                    ),
                ),
                Err(error) => Err(error),
            }
        } else if amount_out_value < position.debt_value + interest {
            Err(PositionError::Underwater)
        } else {
            Ok(
                (
                    (amount_out_value - (position.debt_value + interest)) as u128,
                    swapped.resulting_tick,
                    swapped.crossed_ticks,
                    ManageDebtParams {
                        new_debt: 0,
                        initial_debt: position.debt_value,
                        interest_received: interest as u128,
                    },
                    true,
                    position,
                    MarketView { bitmaps: swapped.bitmaps, ticks: swapped.ticks, tracker },
                ),
            )
        }
    }

    /// Closing a limit position as a long (`long`) or as a short. A position that
    /// is open already is left alone. Else its order is closed. Where the order
    /// has received nothing, the position is gone: the owner receives the
    /// collateral, and the debt is paid without interest. Where it has received
    /// something, the position becomes a market position, as
    /// `spec_convert_limit_position` says, with what stayed unfilled counted in
    /// quote.
    pub open spec fn spec_close_limit_position(
        self,
        long: bool,
        position: PositionDetails,
        now: Time,
    ) -> Result<LimitClosed, PositionError> {
        match position.order_type {
            PositionOrderType::Market => Ok(
                (
                    0,
                    ManageDebtParams { new_debt: 0, initial_debt: 0, interest_received: 0 },
                    false,
                    position,
                    self,
                ),
            ),
            PositionOrderType::Limit(order) => {
                let closed = crate::corelib::order_lib::spec_close_order_result(self.ticks, order);
                let book = crate::corelib::order_lib::spec_close_order(self.bitmaps, self.ticks, order);
                let amount_remaining_value = spec_in_quote(
                    closed.1 as int,
                    position.entry_tick as int,
                    long,
                );
                if !crate::corelib::order_lib::spec_can_close_order(self.ticks, order) {
                    Err(PositionError::Inconsistent)
                } else if closed.0 == 0 {
                    Ok(
                        (
                            position.collateral_value,
                            ManageDebtParams {
                                new_debt: 0,
                                initial_debt: position.debt_value,
                                interest_received: 0,
                            },
                            true,
                            position,
                            MarketView { bitmaps: book.0, ticks: book.1, ..self },
                        ),
                    )
                } else if amount_remaining_value > u128::MAX {
                    Err(PositionError::Overflow)
                } else {
                    match spec_convert_limit_position(
                        self.tracker,
                        position,
                        amount_remaining_value as u128,
                        now,
                    ) {
                        Ok(settled) => Ok(
                            (
                                settled.0,
                                settled.1,
                                false,
                                settled.2,
                                MarketView { bitmaps: book.0, ticks: book.1, tracker: settled.3 },
                            ),
                        ),
                        Err(error) => Err(error),
                    }
                }
            },
        }
    }

    /// Turning the limit position of an account into a market position, as the
    /// watcher asks once the tick of its order was crossed: the order is closed and
    /// the position converted with nothing counted as unfilled. The answer says
    /// whether the order was in fact filled in full. A position that is open
    /// already is left alone, and the answer is no.
    pub open spec fn spec_convert_position(self, position: PositionDetails, now: Time) -> Result<
        (bool, PositionDetails, MarketView),
        PositionError,
    > {
        match position.order_type {
            PositionOrderType::Market => Ok((false, position, self)),
            PositionOrderType::Limit(order) => {
                let closed = crate::corelib::order_lib::spec_close_order_result(self.ticks, order);
                let book = crate::corelib::order_lib::spec_close_order(self.bitmaps, self.ticks, order);
                if !crate::corelib::order_lib::spec_can_close_order(self.ticks, order) {
                    Err(PositionError::Inconsistent)
                } else {
                    match spec_convert_limit_position(self.tracker, position, 0, now) {
                        Ok(settled) => Ok(
                            (
                                closed.1 == 0,
                                settled.2,
                                MarketView { bitmaps: book.0, ticks: book.1, tracker: settled.3 },
                            ),
                        ),
                        Err(error) => Err(error),
                    }
                }
            },
        }
    }
}

/// Whether what closing a market position returned and left behind is what
/// `expected` holds. Where it fails, position and market are what they were.
pub open spec fn spec_market_closed_as(
    r: Result<(Amount, Tick, Vec<Tick>, ManageDebtParams, bool), PositionError>,
    position_before: PositionDetails,
    position_after: PositionDetails,
    before: MarketView,
    after: MarketView,
    expected: Result<MarketClosed, PositionError>,
) -> bool {
    match r {
        Ok(closed) => expected == Ok::<MarketClosed, PositionError>(
            (closed.0, closed.1, closed.2@, closed.3, closed.4, position_after, after),
        ),
        Err(error) => expected == Err::<MarketClosed, PositionError>(error) && after == before
            && position_after == position_before,
    }
}

/// Whether what closing a limit position returned and left behind is what
/// `expected` holds. Where it fails, position and market are what they were.
pub open spec fn spec_limit_closed_as(
    r: Result<(Amount, ManageDebtParams, bool), PositionError>,
    position_before: PositionDetails,
    position_after: PositionDetails,
    before: MarketView,
    after: MarketView,
    expected: Result<LimitClosed, PositionError>,
) -> bool {
    match r {
        Ok(closed) => expected == Ok::<LimitClosed, PositionError>(
            (closed.0, closed.1, closed.2, position_after, after),
        ),
        Err(error) => expected == Err::<LimitClosed, PositionError>(error) && after == before
            && position_after == position_before,
    }
}

impl Market {
    /// Closes a market position by a swap against its direction.
    fn _close_market_position(
        &mut self,
        long: bool,
        position: &mut PositionDetails,
        current_tick: Tick,
        stopping_tick: Tick,
        now: Time,
    ) -> (r: Result<(Amount, Tick, Vec<Tick>, ManageDebtParams, bool), PositionError>)
        ensures
            final(self)@.wf(),
            spec_market_closed_as(
                r,
                *old(position),
                *final(position),
                old(self)@,
                final(self)@,
                old(self)@.spec_close_market_position(
                    long,
                    *old(position),
                    current_tick,
                    stopping_tick,
                    now,
                ),
            ),
    {
        proof {
            use_type_invariant(&*self);
        }
        if (long && position.entry_tick == 0) || !self.tracker().can_remove_volume(
            position.volume_share,
            long,
        ) {
            return Err(PositionError::Inconsistent);
        }
        let saved = self.snapshot();
        let position_realised_value = self._calc_position_realised_val(position.volume_share, long);
        let entry_price = _tick_to_price(position.entry_tick);
        // What the swap pays: for a long the base that the value bought at entry.
        let realised_position_size: u128 = if long {
            match _checked_equivalent(position_realised_value, entry_price, true) {
                Some(size) => size,
                None => {
                    *self = saved;
                    return Err(PositionError::Overflow);
                },
            }
        } else {
            position_realised_value
        };
        let interest_value: u128 = match _checked_interest(
            position.debt_value,
            position.interest_rate,
            position.timestamp,
            now,
        ) {
            Some(interest) => interest,
            None => {
                *self = saved;
                return Err(PositionError::Overflow);
            },
        };
        let total_fee_value: u128 = match position.debt_value.checked_add(interest_value) {
            Some(total) => total,
            None => {
                *self = saved;
                return Err(PositionError::Overflow);
            },
        };
        let (amount_out, amount_remaining, resulting_tick, crossed_ticks) = self._swap(
            realised_position_size,
            !long,
            current_tick,
            stopping_tick,
        );
        // The proceeds of the swap, in quote.
        let amount_out_value: u128 = if long {
            amount_out
        } else {
            match _checked_equivalent(amount_out, _tick_to_price(current_tick), false) {
                Some(value) => value,
                None => {
                    *self = saved;
                    return Err(PositionError::Overflow);
                },
            }
        };
        if amount_remaining > 0 {
            proof {
                if long {
                    lemma_equivalent_round_trip(
                        position_realised_value as int,
                        entry_price as int,
                        true,
                    );
                    lemma_equivalent_monotone(
                        amount_remaining as int,
                        realised_position_size as int,
                        entry_price as int,
                        false,
                    );
                }
            }
            let amount_remaining_value: u128 = if long {
                _equivalent(amount_remaining, entry_price, false)
            } else {
                amount_remaining
            };
            match self._update_market_position_after_swap(
                position,
                resulting_tick,
                amount_out_value,
                amount_remaining_value,
                interest_value,
                now,
            ) {
                Ok((profit, manage_debt_params)) => {
                    return Ok((profit, resulting_tick, crossed_ticks, manage_debt_params, false));
                },
                Err(error) => {
                    *self = saved;
                    return Err(error);
                },
            }
        } else {
            if amount_out_value < total_fee_value {
                *self = saved;
                return Err(PositionError::Underwater);
            }
            let profit: u128 = amount_out_value - total_fee_value;
            let manage_debt_params = ManageDebtParams::init(0, position.debt_value, interest_value);
            return Ok((profit, resulting_tick, crossed_ticks, manage_debt_params, true));
        }
    }

    /// Closes a long market position by a swap that sells.
    pub fn _close_market_long_position(
        &mut self,
        position: &mut PositionDetails,
        current_tick: Tick,
        stopping_tick: Tick,
        now: Time,
    ) -> (r: Result<(Amount, Tick, Vec<Tick>, ManageDebtParams, bool), PositionError>)
        ensures
            final(self)@.wf(),
            spec_market_closed_as(
                r,
                *old(position),
                *final(position),
                old(self)@,
                final(self)@,
                old(self)@.spec_close_market_position(
                    true,
                    *old(position),
                    current_tick,
                    stopping_tick,
                    now,
                ),
            ),
    {
        proof {
            use_type_invariant(&*self);
        }
        self._close_market_position(true, position, current_tick, stopping_tick, now)
    }

    /// Closes a short market position by a swap that buys.
    pub fn _close_market_short_position(
        &mut self,
        position: &mut PositionDetails,
        current_tick: Tick,
        stopping_tick: Tick,
        now: Time,
    ) -> (r: Result<(Amount, Tick, Vec<Tick>, ManageDebtParams, bool), PositionError>)
        ensures
            final(self)@.wf(),
            spec_market_closed_as(
                r,
                *old(position),
                *final(position),
                old(self)@,
                final(self)@,
                old(self)@.spec_close_market_position(
                    false,
                    *old(position),
                    current_tick,
                    stopping_tick,
                    now,
                ),
            ),
    {
        proof {
            use_type_invariant(&*self);
        }
        self._close_market_position(false, position, current_tick, stopping_tick, now)
    }

    /// Closes a limit position by closing its order.
    fn _close_limit_position(&mut self, long: bool, position: &mut PositionDetails, now: Time) -> (r:
        Result<(Amount, ManageDebtParams, bool), PositionError>)
        ensures
            final(self)@.wf(),
            spec_limit_closed_as(
                r,
                *old(position),
                *final(position),
                old(self)@,
                final(self)@,
                old(self)@.spec_close_limit_position(long, *old(position), now),
            ),
    {
        proof {
            use_type_invariant(&*self);
        }
        match position.order_type {
            PositionOrderType::Limit(order) => {
                if !self._can_close_order(&order) {
                    return Err(PositionError::Inconsistent);
                }
                let saved = self.snapshot();
                let (amount_received, amount_remaining) = self._close_order(&order);
                if amount_received == 0 {
                    let manage_debt_params = ManageDebtParams::init(0, position.debt_value, 0);
                    return Ok((position.collateral_value, manage_debt_params, true));
                }
                let amount_remaining_value: u128 = if long {
                    amount_remaining
                } else {
                    let entry_price = _tick_to_price(position.entry_tick);
                    match _checked_equivalent(amount_remaining, entry_price, false) {
                        Some(value) => value,
                        None => {
                            *self = saved;
                            return Err(PositionError::Overflow);
                        },
                    }
                };
                match self._convert_limit_position(position, amount_remaining_value, now) {
                    Ok((removed_collateral, manage_debt_params)) => {
                        return Ok((removed_collateral, manage_debt_params, false));
                    },
                    Err(error) => {
                        *self = saved;
                        return Err(error);
                    },
                }
            },
            PositionOrderType::Market => {
                return Ok((0, ManageDebtParams::default(), false));
            },
        }
    }

    /// Closes a long limit position.
    pub fn _close_limit_long_position(&mut self, position: &mut PositionDetails, now: Time) -> (r: Result<
        (Amount, ManageDebtParams, bool),
        PositionError,
    >)
        ensures
            final(self)@.wf(),
            spec_limit_closed_as(
                r,
                *old(position),
                *final(position),
                old(self)@,
                final(self)@,
                old(self)@.spec_close_limit_position(true, *old(position), now),
            ),
    {
        proof {
            use_type_invariant(&*self);
        }
        self._close_limit_position(true, position, now)
    }

    /// Closes a short limit position.
    pub fn _close_limit_short_position(&mut self, position: &mut PositionDetails, now: Time) -> (r:
        Result<(Amount, ManageDebtParams, bool), PositionError>)
        ensures
            final(self)@.wf(),
            spec_limit_closed_as(
                r,
                *old(position),
                *final(position),
                old(self)@,
                final(self)@,
                old(self)@.spec_close_limit_position(false, *old(position), now),
            ),
    {
        proof {
            use_type_invariant(&*self);
        }
        self._close_limit_position(false, position, now)
    }

    /// Turns a limit position into a market position, as the watcher asks once the
    /// tick of its order was crossed, and says whether the order was filled in
    /// full.
    pub fn _convert_position(&mut self, position: &mut PositionDetails, now: Time) -> (r: Result<
        bool,
        PositionError,
    >)
        ensures
            final(self)@.wf(),
            match r {
                Ok(filled) => old(self)@.spec_convert_position(*old(position), now) == Ok::<
                    (bool, PositionDetails, MarketView),
                    PositionError,
                >((filled, *final(position), final(self)@)),
                Err(error) => old(self)@.spec_convert_position(*old(position), now) == Err::<
                    (bool, PositionDetails, MarketView),
                    PositionError,
                >(error) && final(self)@ == old(self)@ && *final(position) == *old(position),
            },
    {
        proof {
            use_type_invariant(&*self);
        }
        match position.order_type {
            PositionOrderType::Limit(order) => {
                if !self._can_close_order(&order) {
                    return Err(PositionError::Inconsistent);
                }
                let saved = self.snapshot();
                let (_, amount_remaining) = self._close_order(&order);
                let valid_close: bool = amount_remaining == 0;
                match self._convert_limit_position(position, 0, now) {
                    Ok(_) => {
                        return Ok(valid_close);
                    },
                    Err(error) => {
                        *self = saved;
                        return Err(error);
                    },
                }
            },
            PositionOrderType::Market => {
                return Ok(false);
            },
        }
    }
}

/// `numerator` over `denominator` in hundred-thousandths of a percent, rounded
/// towards zero.
pub open spec fn spec_signed_percentage(numerator: int, denominator: int) -> int {
    if numerator >= 0 {
        (numerator * 10_000_000) / denominator
    } else {
        -(((-numerator) * 10_000_000) / denominator)
    }
}

/// The three amounts that the profit of a position is counted from: what the
/// position is worth now, the interest on its debt, and what it was worth when it
/// was opened. A long is counted in quote: the base that the value of its shares
/// bought at the entry tick, at the price of the current tick. A short is counted
/// in base, at the prices of the entry tick and of the current tick.
pub open spec fn spec_pnl_amounts(
    tracker: FundingRateTracker,
    position: PositionDetails,
    current_tick: Tick,
    now: Time,
) -> (int, int, int) {
    let realised_value = tracker.spec_share_value(position.volume_share, position.long);
    let entry_price = spec_tick_to_price(position.entry_tick as int);
    let current_price = spec_tick_to_price(current_tick as int);
    if position.long {
        (
            spec_equivalent(spec_equivalent(realised_value, entry_price, true), current_price, false),
            crate::corelib::calc_lib::spec_calc_interest(
                position.debt_value as int,
                position.interest_rate as int,
                position.timestamp as int,
                now as int,
            ),
            position.debt_value + position.collateral_value,
        )
    } else {
        (
            spec_equivalent(realised_value, current_price, true),
            crate::corelib::calc_lib::spec_calc_interest(
                spec_equivalent(position.debt_value as int, entry_price, true),
                position.interest_rate as int,
                position.timestamp as int,
                now as int,
            ),
            spec_equivalent(position.debt_value + position.collateral_value, entry_price, true),
        )
    }
}

/// The profit of a position in hundred-thousandths of a percent of what it was
/// worth when it was opened: what it is worth now, less interest, less what it was
/// worth then, over what it was worth then.
pub open spec fn spec_position_pnl(
    tracker: FundingRateTracker,
    position: PositionDetails,
    current_tick: Tick,
    now: Time,
) -> int {
    let amounts = spec_pnl_amounts(tracker, position, current_tick, now);
    spec_signed_percentage(amounts.0 - amounts.1 - amounts.2, amounts.2)
}

/// Whether the profit of a position can be counted: its shares are shares of its
/// side, the ticks have prices, what it was worth is not nothing, and every
/// amount on the way fits in 128 bits, the profit in 128 signed bits.
pub open spec fn spec_pnl_defined(
    tracker: FundingRateTracker,
    position: PositionDetails,
    current_tick: Tick,
    now: Time,
) -> bool {
    let realised_value = tracker.spec_share_value(position.volume_share, position.long);
    let entry_price = spec_tick_to_price(position.entry_tick as int);
    let amounts = spec_pnl_amounts(tracker, position, current_tick, now);
    let debt = if position.long {
        position.debt_value as int
    } else {
        spec_equivalent(position.debt_value as int, entry_price, true)
    };
    let difference = amounts.0 - amounts.1 - amounts.2;
    &&& tracker.spec_can_remove(position.volume_share, position.long)
    &&& position.entry_tick > 0
    &&& position.long || current_tick > 0
    &&& position.debt_value + position.collateral_value <= u128::MAX
    &&& position.long ==> spec_equivalent(realised_value, entry_price, true) <= u128::MAX
    &&& debt <= u128::MAX
    &&& spec_percentage(position.interest_rate as int, debt) <= u128::MAX
    &&& amounts.0 <= u128::MAX
    &&& amounts.1 <= u128::MAX
    &&& 0 < amounts.2 <= u128::MAX
    &&& amounts.1 + amounts.2 <= u128::MAX
    &&& (if difference >= 0 {
        difference
    } else {
        -difference
    }) * 10_000_000 / amounts.2 <= i128::MAX
}

impl Market {
    /// The profit of a position at `current_tick`, where it can be counted.
    pub fn _calculate_position_pnl(&self, position: &PositionDetails, current_tick: Tick, now: Time) -> (r:
        Option<i128>)
        ensures
            match r {
                Some(pnl) => spec_pnl_defined(self@.tracker, *position, current_tick, now) && pnl
                    == spec_position_pnl(self@.tracker, *position, current_tick, now),
                None => !spec_pnl_defined(self@.tracker, *position, current_tick, now),
            },
    {
        if !self.tracker().can_remove_volume(position.volume_share, position.long)
            || position.entry_tick == 0 || (!position.long && current_tick == 0) {
            return None;
        }
        let mut tracker = self.tracker();
        let position_realised_value = tracker.remove_volume(position.volume_share, position.long);
        let entry_price = _tick_to_price(position.entry_tick);
        let current_price = _tick_to_price(current_tick);
        let initial: u128 = match position.debt_value.checked_add(position.collateral_value) {
            Some(initial) => initial,
            None => {
                return None;
            },
        };
        let value_now: u128;
        let value_then: u128;
        let debt: u128;
        if position.long {
            let position_realised_size: u128 = match _checked_equivalent(
                position_realised_value,
                entry_price,
                true,
            ) {
                Some(size) => size,
                None => {
                    return None;
                },
            };
            value_now = match _checked_equivalent(position_realised_size, current_price, false) {
                Some(value) => value,
                None => {
                    return None;
                },
            };
            value_then = initial;
            debt = position.debt_value;
        } else {
            debt = match _checked_equivalent(position.debt_value, entry_price, true) {
                Some(size) => size,
                None => {
                    return None;
                },
            };
            value_now = match _checked_equivalent(position_realised_value, current_price, true) {
                Some(size) => size,
                None => {
                    return None;
                },
            };
            value_then = match _checked_equivalent(initial, entry_price, true) {
                Some(size) => size,
                None => {
                    return None;
                },
            };
        }
        let fee: u128 = match _checked_interest(debt, position.interest_rate, position.timestamp, now) {
            Some(fee) => fee,
            None => {
                return None;
            },
        };
        if value_then == 0 {
            return None;
        }
        let owed: u128 = match fee.checked_add(value_then) {
            Some(owed) => owed,
            None => {
                return None;
            },
        };
        let difference: u128 = if value_now >= owed {
            value_now - owed
        } else {
            owed - value_now
        };
        let magnitude: u128 = match crate::corelib::wide_lib::_checked_mul_div(
            difference,
            10_000_000,
            value_then,
        ) {
            Some(magnitude) => magnitude,
            None => {
                return None;
            },
        };
        if magnitude > 0x7fff_ffff_ffff_ffff_ffff_ffff_ffff_ffffu128 {
            return None;
        }
        let pnl: i128 = magnitude as i128;
        if value_now >= owed {
            Some(pnl)
        } else {
            proof {
                assert(magnitude == 0 ==> spec_signed_percentage(
                    value_now as int - owed as int,
                    value_then as int,
                ) == 0);
            }
            Some(-pnl)
        }
    }
}

/// A position that was opened in full comes back whole where it is closed in
/// full for what it was worth, before any interest has run: its owner receives
/// the collateral, the debt is paid in full, and no interest is paid. The market
/// in which it is closed may be any.
pub proof fn lemma_open_then_close_market_position(
    opening: MarketView,
    closing: MarketView,
    long: bool,
    collateral_value: Amount,
    debt_value: Amount,
    interest_rate: u32,
    opening_tick: Tick,
    opening_limit: Tick,
    opened_at: Time,
    closing_tick: Tick,
    closing_limit: Tick,
    closed_at: Time,
)
    requires
        opening.spec_open_market_position(
            long,
            collateral_value,
            debt_value,
            interest_rate,
            opening_tick,
            opening_limit,
            opened_at,
        ) is Ok,
        opening.spec_swap(
            spec_checked_order_size(collateral_value, debt_value, opening_tick, long)->Ok_0,
            long,
            opening_tick,
            opening_limit,
        ).amount_remaining == 0,
        ({
            let position = opening.spec_open_market_position(
                long,
                collateral_value,
                debt_value,
                interest_rate,
                opening_tick,
                opening_limit,
                opened_at,
            )->Ok_0.0;
            let closed = closing.spec_close_market_position(
                long,
                position,
                closing_tick,
                closing_limit,
                closed_at,
            );
            let swapped = closing.spec_swap(
                spec_in_order_asset(
                    closing.tracker.spec_share_value(position.volume_share, long),
                    position.entry_tick as int,
                    !long,
                ) as u128,
                !long,
                closing_tick,
                closing_limit,
            );
            &&& closed is Ok
            &&& swapped.amount_remaining == 0
            &&& collateral_value + debt_value == (if long {
                swapped.amount_out as int
            } else {
                spec_in_quote(swapped.amount_out as int, closing_tick as int, false)
            })
            &&& closed_at <= opened_at + _ONE_HOUR
        }),
    ensures
        ({
            let position = opening.spec_open_market_position(
                long,
                collateral_value,
                debt_value,
                interest_rate,
                opening_tick,
                opening_limit,
                opened_at,
            )->Ok_0.0;
            let closed = closing.spec_close_market_position(
                long,
                position,
                closing_tick,
                closing_limit,
                closed_at,
            )->Ok_0;
            &&& position.collateral_value == collateral_value
            &&& position.debt_value == debt_value
            &&& closed.0 == collateral_value
            &&& closed.3 == (ManageDebtParams {
                new_debt: 0,
                initial_debt: debt_value,
                interest_received: 0,
            })
            &&& closed.4
        }),
{
    if !long {
        crate::corelib::price_lib::lemma_equivalent_zero(
            spec_tick_to_price(opening_tick as int),
            false,
        );
        lemma_tick_to_price(opening_tick as int);
    }
    let hours = crate::corelib::calc_lib::spec_hours_elapsed(opened_at as int, closed_at as int);
    assert(hours == 0);
    assert(hours * spec_percentage(interest_rate as int, debt_value as int) == 0) by (nonlinear_arith)
        requires
            hours == 0,
    ;
}

} // verus!
