use vstd::prelude::*;
use crate::corelib::tick_lib::spec_def_max_tick;
use crate::corelib::wide_lib::_checked_mul_div;
use crate::market::{Market, MarketView};
use crate::position::{
    max_or_default_max,
    spec_max_or_default_max,
    ManageDebtParams,
    OrderType,
    PositionDetails,
    PositionError,
    PositionOrderType,
};
use crate::types::StateDetails;

verus! {

pub type Amount = u128;

pub type Tick = u64;

pub type Time = u64;

/// What the watcher is to be told after an operation.
#[derive(Debug)]
pub enum WatcherCall {
    /// Nothing.
    Nothing,
    /// That the account has an order at this tick.
    StoreTickOrder(Tick),
    /// That the account has no order at this tick any more.
    RemoveTickOrder(Tick),
    /// That these ticks were crossed, so that the orders at them are filled.
    ExecuteTicksOrders(Vec<Tick>),
}

/// A call to the watcher as plain values.
pub ghost enum WatcherCallView {
    Nothing,
    StoreTickOrder(Tick),
    RemoveTickOrder(Tick),
    ExecuteTicksOrders(Seq<Tick>),
}

impl View for WatcherCall {
    type V = WatcherCallView;

    open spec fn view(&self) -> WatcherCallView {
        match self {
            WatcherCall::Nothing => WatcherCallView::Nothing,
            WatcherCall::StoreTickOrder(tick) => WatcherCallView::StoreTickOrder(*tick),
            WatcherCall::RemoveTickOrder(tick) => WatcherCallView::RemoveTickOrder(*tick),
            WatcherCall::ExecuteTicksOrders(ticks) => WatcherCallView::ExecuteTicksOrders(ticks@),
        }
    }
}

/// What the vault is to be told after an operation: what to credit to the margin
/// of the owner, and what has become of the debt.
#[derive(Clone, Copy, Debug, PartialEq, Eq, Structural)]
pub struct VaultCall {
    pub margin_delta: Amount,
    pub manage_debt_params: ManageDebtParams,
}

/// The call that tells the watcher of crossed ticks, where there are any.
pub open spec fn spec_execute_ticks(crossed_ticks: Seq<Tick>) -> WatcherCallView {
    if crossed_ticks.len() == 0 {
        WatcherCallView::Nothing
    } else {
        WatcherCallView::ExecuteTicksOrders(crossed_ticks)
    }
}

/// The debt that a position of `collateral_value` takes at a leverage of
/// `leveragex10` tenths.
pub open spec fn spec_opening_debt(leveragex10: u8, collateral_value: Amount) -> int {
    ((leveragex10 - 10) * collateral_value) / 10
}

/// Whether an account may open a position, and with what debt. An account that
/// has a position or a pending retry entry is busy. A paused market opens
/// nothing. The leverage has to be at least one and below the maximum, and the
/// collateral at least the minimum.
pub open spec fn spec_check_open_position(
    state: StateDetails,
    busy: bool,
    leveragex10: u8,
    collateral_value: Amount,
) -> Result<Amount, PositionError> {
    if busy {
        Err(PositionError::Busy)
    } else if !state.not_paused {
        Err(PositionError::Paused)
    } else if leveragex10 >= state.max_leveragex10 || collateral_value < state.min_collateral
        || leveragex10 < 10 {
        Err(PositionError::RangeError)
    } else if spec_opening_debt(leveragex10, collateral_value) > u128::MAX {
        Err(PositionError::Overflow)
    } else {
        Ok(spec_opening_debt(leveragex10, collateral_value) as u128)
    }
}

/// Checks a request to open a position and returns the debt to ask the vault for.
pub fn check_open_position(state: &StateDetails, busy: bool, leveragex10: u8, collateral_value: Amount) -> (r:
    Result<Amount, PositionError>)
    ensures
        r == spec_check_open_position(*state, busy, leveragex10, collateral_value),
{
    if busy {
        return Err(PositionError::Busy);
    }
    if !state.not_paused {
        return Err(PositionError::Paused);
    }
    if leveragex10 >= state.max_leveragex10 || collateral_value < state.min_collateral
        || leveragex10 < 10 {
        return Err(PositionError::RangeError);
    }
    // The leverage is given in tenths.
    match _checked_mul_div((leveragex10 - 10) as u128, collateral_value, 10) {
        Some(debt_value) => Ok(debt_value),
        None => Err(PositionError::Overflow),
    }
}

/// What opening a position comes to: the position or why there is none, and
/// what the watcher and the vault are to be told.
#[derive(Debug)]
pub struct OpenPositionOutcome {
    pub result: Result<PositionDetails, PositionError>,
    pub watcher: WatcherCall,
    pub vault: Option<VaultCall>,
}

/// An outcome of opening as plain values, with the market and its state after it.
pub ghost struct OpenPositionView {
    pub result: Result<PositionDetails, PositionError>,
    pub watcher: WatcherCallView,
    pub vault: Option<VaultCall>,
    pub market: MarketView,
    pub state: StateDetails,
}

/// What the vault is told where a position that it has granted could not be
/// opened: all collateral goes back to the margin, and the debt is undone.
pub open spec fn spec_refund(collateral_value: Amount, debt_value: Amount) -> VaultCall {
    VaultCall {
        margin_delta: collateral_value,
        manage_debt_params: ManageDebtParams {
            new_debt: 0,
            initial_debt: debt_value,
            interest_received: 0,
        },
    }
}

/// Opening a position once the vault has answered. Where the vault has not
/// granted the debt, nothing happens. Else the position is opened up to the limit
/// that `spec_max_or_default_max` gives. Where that fails, the vault is told to
/// undo its grant. Where it succeeds, the market stands at the tick where it
/// ended. For a limit order the watcher is told of the order. For a swap the
/// watcher is told of the crossed ticks, and the vault of what the swap did not
/// use.
pub open spec fn spec_open_position_outcome(
    market: MarketView,
    state: StateDetails,
    valid: bool,
    interest_rate: u32,
    collateral_value: Amount,
    debt_value: Amount,
    max_tick: Option<Tick>,
    long: bool,
    order_type: OrderType,
    now: Time,
) -> OpenPositionView {
    let stopping_tick = spec_max_or_default_max(max_tick, state.current_tick, long) as u64;
    let opened = market.spec_open_position(
        long,
        order_type,
        collateral_value,
        debt_value,
        interest_rate,
        state.current_tick,
        stopping_tick,
        now,
    );
    if !valid {
        OpenPositionView {
            result: Err(PositionError::VaultReject),
            watcher: WatcherCallView::Nothing,
            vault: None,
            market,
            state,
        }
    } else if long && spec_def_max_tick(state.current_tick as int, true) > u64::MAX {
        OpenPositionView {
            result: Err(PositionError::Overflow),
            watcher: WatcherCallView::Nothing,
            vault: Some(spec_refund(collateral_value, debt_value)),
            market,
            state,
        }
    } else {
        match opened {
            Err(error) => OpenPositionView {
                result: Err(error),
                watcher: WatcherCallView::Nothing,
                vault: Some(spec_refund(collateral_value, debt_value)),
                market,
                state,
            },
            Ok(opened) => {
                let position = opened.0;
                let unused_collateral = (collateral_value - position.collateral_value) as u128;
                OpenPositionView {
                    result: Ok(position),
                    watcher: match order_type {
                        OrderType::Limit => WatcherCallView::StoreTickOrder(stopping_tick),
                        OrderType::Market => spec_execute_ticks(opened.2),
                    },
                    vault: if order_type == OrderType::Market && (position.debt_value != debt_value
                        || position.collateral_value != collateral_value) {
                        Some(
                            VaultCall {
                                margin_delta: unused_collateral,
                                manage_debt_params: ManageDebtParams {
                                    new_debt: position.debt_value,
                                    initial_debt: debt_value,
                                    interest_received: unused_collateral,
                                },
                            },
                        )
                    } else {
                        None
                    },
                    market: opened.3,
                    state: StateDetails { current_tick: opened.1, ..state },
                }
            },
        }
    }
}

/// Whether `current_tick` is so high that the default limit of a buy from it is
/// no tick any more.
pub fn _default_limit_overflows(current_tick: Tick) -> (b: bool)
    ensures
        b == (spec_def_max_tick(current_tick as int, true) > u64::MAX),
{
    assert(((5 * 100_000) * current_tick) / 10_000_000 == current_tick / 20) by (nonlinear_arith)
        requires
            current_tick >= 0,
    ;
    current_tick / 20 > u64::MAX - current_tick
}

/// The call that tells the watcher of crossed ticks, where there are any.
pub fn _execute_ticks(crossed_ticks: Vec<Tick>) -> (r: WatcherCall)
    ensures
        r@ == spec_execute_ticks(crossed_ticks@),
{
    if crossed_ticks.len() == 0 {
        WatcherCall::Nothing
    } else {
        WatcherCall::ExecuteTicksOrders(crossed_ticks)
    }
}

/// Opens a position once the vault has answered with `valid` and
/// `interest_rate`, and says what the watcher and the vault are to be told.
pub fn open_position(
    market: &mut Market,
    state: &mut StateDetails,
    valid: bool,
    interest_rate: u32,
    collateral_value: Amount,
    debt_value: Amount,
    max_tick: Option<Tick>,
    long: bool,
    order_type: OrderType,
    now: Time,
) -> (r: OpenPositionOutcome)
    ensures
        final(market)@.wf(),
        (OpenPositionView {
            result: r.result,
            watcher: r.watcher@,
            vault: r.vault,
            market: final(market)@,
            state: *final(state),
        }) == spec_open_position_outcome(
            old(market)@,
            *old(state),
            valid,
            interest_rate,
            collateral_value,
            debt_value,
            max_tick,
            long,
            order_type,
            now,
        ),
{
    proof {
        use_type_invariant(&*market);
    }
    if !valid {
        return OpenPositionOutcome {
            result: Err(PositionError::VaultReject),
            watcher: WatcherCall::Nothing,
            vault: None,
        };
    }
    let refund = VaultCall {
        margin_delta: collateral_value,
        manage_debt_params: ManageDebtParams::init(0, debt_value, 0),
    };
    if long && _default_limit_overflows(state.current_tick) {
        return OpenPositionOutcome {
            result: Err(PositionError::Overflow),
            watcher: WatcherCall::Nothing,
            vault: Some(refund),
        };
    }
    let stopping_tick = max_or_default_max(max_tick, state.current_tick, long);
    match market._open_position(
        long,
        order_type,
        collateral_value,
        debt_value,
        interest_rate,
        state.current_tick,
        stopping_tick,
        now,
    ) {
        Ok((position, resulting_tick, crossed_ticks)) => {
            state.current_tick = resulting_tick;
            match order_type {
                OrderType::Limit => OpenPositionOutcome {
                    result: Ok(position),
                    watcher: WatcherCall::StoreTickOrder(stopping_tick),
                    vault: None,
                },
                OrderType::Market => {
                    let vault: Option<VaultCall> = if position.debt_value != debt_value
                        || collateral_value != position.collateral_value {
                        let un_used_collateral: u128 = collateral_value - position.collateral_value;
                        Some(
                            VaultCall {
                                margin_delta: un_used_collateral,
                                manage_debt_params: ManageDebtParams::init(
                                    position.debt_value,
                                    debt_value,
                                    un_used_collateral,
                                ),
                            },
                        )
                    } else {
                        None
                    };
                    OpenPositionOutcome {
                        result: Ok(position),
                        watcher: _execute_ticks(crossed_ticks),
                        vault,
                    }
                },
            }
        },
        Err(error) => OpenPositionOutcome {
            result: Err(error),
            watcher: WatcherCall::Nothing,
            vault: Some(refund),
        },
    }
}

/// What closing a position comes to: what the owner receives, whether the
/// position is gone, and what the watcher and the vault are to be told.
#[derive(Debug)]
pub struct ClosePositionOutcome {
    pub collateral_value: Amount,
    pub closed: bool,
    pub watcher: WatcherCall,
    pub vault: VaultCall,
}

/// An outcome of closing as plain values, with the position, the market and its
/// state after it.
pub ghost struct ClosePositionView {
    pub collateral_value: Amount,
    pub closed: bool,
    pub watcher: WatcherCallView,
    pub vault: VaultCall,
    pub position: PositionDetails,
    pub market: MarketView,
    pub state: StateDetails,
}

/// Closing a position. A paused market closes nothing. A market position is
/// closed by a swap up to the limit that `spec_max_or_default_max` gives, against
/// the direction of the position; the market then stands at the tick where the
/// swap ended, and the watcher is told of the crossed ticks. A limit position is
/// closed by closing its order; where no debt is left, the watcher is told that
/// the order is gone. In both cases the vault is told what the owner receives and
/// what has become of the debt.
pub open spec fn spec_close_position(
    market: MarketView,
    state: StateDetails,
    position: PositionDetails,
    max_tick: Option<Tick>,
    now: Time,
) -> Result<ClosePositionView, PositionError> {
    let buy = !position.long;
    let stopping_tick = spec_max_or_default_max(max_tick, state.current_tick, buy) as u64;
    if !state.not_paused {
        Err(PositionError::Paused)
    } else {
        match position.order_type {
            PositionOrderType::Market => {
                if buy && spec_def_max_tick(state.current_tick as int, true) > u64::MAX {
                    Err(PositionError::Overflow)
                } else {
                    match market.spec_close_market_position(
                        position.long,
                        position,
                        state.current_tick,
                        stopping_tick,
                        now,
                    ) {
                        Ok(closed) => Ok(
                            ClosePositionView {
                                collateral_value: closed.0,
                                closed: closed.4,
                                watcher: spec_execute_ticks(closed.2),
                                vault: VaultCall {
                                    margin_delta: closed.0,
                                    manage_debt_params: closed.3,
                                },
                                position: closed.5,
                                market: closed.6,
                                state: StateDetails { current_tick: closed.1, ..state },
                            },
                        ),
                        Err(error) => Err(error),
                    }
                }
            },
            PositionOrderType::Limit(_) => {
                match market.spec_close_limit_position(position.long, position, now) {
                    Ok(closed) => Ok(
                        ClosePositionView {
                            collateral_value: closed.0,
                            closed: closed.2,
                            watcher: if closed.1.new_debt == 0 {
                                WatcherCallView::RemoveTickOrder(position.entry_tick)
                            } else {
                                WatcherCallView::Nothing
                            },
                            vault: VaultCall { margin_delta: closed.0, manage_debt_params: closed.1 },
                            position: closed.3,
                            market: closed.4,
                            state,
                        },
                    ),
                    Err(error) => Err(error),
                }
            },
        }
    }
}

/// Closes a position, and says what the owner receives and what the watcher and
/// the vault are to be told. Where it fails, nothing has changed.
pub fn close_position(
    market: &mut Market,
    state: &mut StateDetails,
    position: &mut PositionDetails,
    max_tick: Option<Tick>,
    now: Time,
) -> (r: Result<ClosePositionOutcome, PositionError>)
    ensures
        final(market)@.wf(),
        match r {
            Ok(outcome) => spec_close_position(
                old(market)@,
                *old(state),
                *old(position),
                max_tick,
                now,
            ) == Ok::<ClosePositionView, PositionError>(
                ClosePositionView {
                    collateral_value: outcome.collateral_value,
                    closed: outcome.closed,
                    watcher: outcome.watcher@,
                    vault: outcome.vault,
                    position: *final(position),
                    market: final(market)@,
                    state: *final(state),
                },
            ),
            Err(error) => spec_close_position(
                old(market)@,
                *old(state),
                *old(position),
                max_tick,
                now,
            ) == Err::<ClosePositionView, PositionError>(error) && final(market)@ == old(market)@
                && *final(state) == *old(state) && *final(position) == *old(position),
        },
{
    proof {
        use_type_invariant(&*market);
    }
    if !state.not_paused {
        return Err(PositionError::Paused);
    }
    match position.order_type {
        PositionOrderType::Market => {
            let current_tick = state.current_tick;
            let buy: bool = !position.long;
            if buy && _default_limit_overflows(current_tick) {
                return Err(PositionError::Overflow);
            }
            let stopping_tick = max_or_default_max(max_tick, current_tick, buy);
            // A market position is open already: it is closed by a swap.
            let closed = if position.long {
                market._close_market_long_position(position, current_tick, stopping_tick, now)
            } else {
                market._close_market_short_position(position, current_tick, stopping_tick, now)
            };
            match closed {
                Ok((collateral_value, resulting_tick, crossed_ticks, manage_debt_params, gone)) => {
                    state.current_tick = resulting_tick;
                    Ok(
                        ClosePositionOutcome {
                            collateral_value,
                            closed: gone,
                            watcher: _execute_ticks(crossed_ticks),
                            vault: VaultCall { margin_delta: collateral_value, manage_debt_params },
                        },
                    )
                },
                Err(error) => Err(error),
            }
        },
        PositionOrderType::Limit(_) => {
            let entry_tick = position.entry_tick;
            let closed = if position.long {
                market._close_limit_long_position(position, now)
            } else {
                market._close_limit_short_position(position, now)
            };
            match closed {
                Ok((removed_collateral, manage_debt_params, gone)) => {
                    let watcher = if manage_debt_params.new_debt == 0 {
                        WatcherCall::RemoveTickOrder(entry_tick)
                    } else {
                        WatcherCall::Nothing
                    };
                    Ok(
                        ClosePositionOutcome {
                            collateral_value: removed_collateral,
                            closed: gone,
                            watcher,
                            vault: VaultCall { margin_delta: removed_collateral, manage_debt_params },
                        },
                    )
                },
                Err(error) => Err(error),
            }
        },
    }
}

} // verus!
