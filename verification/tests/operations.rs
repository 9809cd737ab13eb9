use perp::corelib::order_lib::LimitOrder;
use perp::market::Market;
use perp::operations::{
    check_open_position, close_position, open_position, VaultCall, WatcherCall,
    _default_limit_overflows,
};
use perp::position::{ManageDebtParams, OrderType, PositionDetails, PositionError, PositionOrderType};
use perp::types::StateDetails;

const PAR: u64 = 10_000_000;

fn running(current_tick: u64) -> StateDetails {
    StateDetails {
        not_paused: true,
        current_tick,
        max_leveragex10: 100,
        min_collateral: 1_000,
        base_token_multiple: 1,
    }
}

fn place(market: &mut Market, size: u128, tick: u64, buy: bool) {
    let mut order = LimitOrder::new(size, tick, buy);
    market._open_order(&mut order);
}

fn is_nothing(call: &WatcherCall) -> bool {
    matches!(call, WatcherCall::Nothing)
}

#[test]
fn a_request_is_checked_before_the_vault_is_asked() {
    let state = running(PAR);
    // a leverage of two takes as much debt as there is collateral
    assert_eq!(check_open_position(&state, false, 20, 5_000), Ok(5_000));
    assert_eq!(check_open_position(&state, false, 10, 5_000), Ok(0));
    assert_eq!(check_open_position(&state, false, 15, 5_001), Ok(2_500));
    assert_eq!(check_open_position(&state, false, 99, 1_000), Ok(8_900));
    assert_eq!(check_open_position(&state, true, 20, 5_000), Err(PositionError::Busy));
    let paused = StateDetails { not_paused: false, ..state };
    assert_eq!(check_open_position(&paused, false, 20, 5_000), Err(PositionError::Paused));
    assert_eq!(check_open_position(&paused, true, 20, 5_000), Err(PositionError::Busy));
    assert_eq!(check_open_position(&state, false, 100, 5_000), Err(PositionError::RangeError));
    assert_eq!(check_open_position(&state, false, 9, 5_000), Err(PositionError::RangeError));
    assert_eq!(check_open_position(&state, false, 20, 999), Err(PositionError::RangeError));
    assert_eq!(check_open_position(&state, false, 99, u128::MAX), Err(PositionError::Overflow));
    assert_eq!(check_open_position(&state, false, 20, u128::MAX), Ok(u128::MAX));
}

#[test]
fn a_position_that_the_vault_rejects_is_not_opened() {
    let mut market = Market::new();
    let mut state = running(PAR);
    place(&mut market, 1_000_000, PAR, false);
    let outcome = open_position(&mut market, &mut state, false, 7, 1_000, 500, None, true, OrderType::Market, 5);
    assert_eq!(outcome.result, Err(PositionError::VaultReject));
    assert!(is_nothing(&outcome.watcher));
    assert_eq!(outcome.vault, None);
    assert_eq!(state, running(PAR));
    assert_eq!(market._get_tick_details(PAR).unwrap().liq_bounds_token0.lower_bound, 0);
}

#[test]
fn a_position_that_cannot_be_opened_is_refunded() {
    let mut market = Market::new();
    let mut state = running(PAR);
    let outcome = open_position(&mut market, &mut state, true, 7, 1_000, 500, None, true, OrderType::Market, 5);
    assert_eq!(outcome.result, Err(PositionError::NoLiquidity));
    assert!(is_nothing(&outcome.watcher));
    assert_eq!(
        outcome.vault,
        Some(VaultCall {
            margin_delta: 1_000,
            manage_debt_params: ManageDebtParams { new_debt: 0, initial_debt: 500, interest_received: 0 },
        })
    );
    assert_eq!(state, running(PAR));
    // a limit order at the default limit lies beyond the market
    let outcome = open_position(&mut market, &mut state, true, 7, 1_000, 500, None, true, OrderType::Limit, 5);
    assert_eq!(outcome.result, Err(PositionError::RangeError));
    assert!(outcome.vault.is_some());
    // a market so high that a limit five percent above it is no tick
    let mut high = running(u64::MAX - 5);
    assert!(_default_limit_overflows(high.current_tick));
    assert!(!_default_limit_overflows(17_568_327_689_247_192_014));
    assert!(_default_limit_overflows(17_568_327_689_247_192_020));
    let outcome = open_position(&mut market, &mut high, true, 7, 1_000, 500, None, true, OrderType::Market, 5);
    assert_eq!(outcome.result, Err(PositionError::Overflow));
    assert!(outcome.vault.is_some());
}

#[test]
fn opening_by_a_swap_moves_the_market_and_tells_watcher_and_vault() {
    let mut market = Market::new();
    let mut state = running(PAR);
    place(&mut market, 700, 10_010_000, false);
    place(&mut market, 200, 10_020_000, false);
    let outcome = open_position(
        &mut market,
        &mut state,
        true,
        7,
        1_000,
        500,
        Some(10_300_000),
        true,
        OrderType::Market,
        5,
    );
    // 700 base cost 700 quote at 100.1 percent, 200 cost 200 at 100.2 percent
    let position = outcome.result.unwrap();
    assert_eq!(
        position,
        PositionDetails {
            entry_tick: 10_020_000,
            long: true,
            collateral_value: 900,
            debt_value: 0,
            volume_share: 900,
            interest_rate: 7,
            order_type: PositionOrderType::Market,
            timestamp: 5,
        }
    );
    assert_eq!(state.current_tick, 10_020_000);
    match outcome.watcher {
        WatcherCall::ExecuteTicksOrders(ticks) => assert_eq!(ticks, vec![10_010_000, 10_020_000]),
        other => panic!("{:?}", other),
    }
    assert_eq!(
        outcome.vault,
        Some(VaultCall {
            margin_delta: 100,
            manage_debt_params: ManageDebtParams { new_debt: 0, initial_debt: 500, interest_received: 100 },
        })
    );
}

#[test]
fn opening_in_full_tells_the_vault_nothing() {
    let mut market = Market::new();
    let mut state = running(PAR);
    place(&mut market, 5_000, PAR, false);
    let outcome = open_position(&mut market, &mut state, true, 7, 1_000, 500, None, true, OrderType::Market, 5);
    assert!(outcome.result.is_ok());
    assert!(is_nothing(&outcome.watcher));
    assert_eq!(outcome.vault, None);
    assert_eq!(state.current_tick, PAR);
}

#[test]
fn opening_by_a_limit_order_tells_the_watcher_of_the_order() {
    let mut market = Market::new();
    let mut state = running(PAR);
    let outcome = open_position(
        &mut market,
        &mut state,
        true,
        7,
        1_000,
        500,
        Some(9_900_000),
        false,
        OrderType::Limit,
        5,
    );
    // a short has to sell above the market: the limit that was asked for lies within
    // the default of a sell and is taken
    assert_eq!(outcome.result, Err(PositionError::RangeError));
    let outcome = open_position(
        &mut market,
        &mut state,
        true,
        7,
        1_000,
        500,
        Some(9_900_000),
        true,
        OrderType::Limit,
        5,
    );
    assert!(outcome.result.is_ok());
    match outcome.watcher {
        WatcherCall::StoreTickOrder(tick) => assert_eq!(tick, 9_900_000),
        other => panic!("{:?}", other),
    }
    assert_eq!(outcome.vault, None);
    assert_eq!(state.current_tick, PAR);
    assert!(market._get_tick_details(9_900_000).is_some());
}

#[test]
fn closing_positions() {
    let mut market = Market::new();
    let mut state = running(PAR);
    place(&mut market, 5_000, PAR, false);
    let outcome = open_position(&mut market, &mut state, true, 7, 1_000, 500, None, true, OrderType::Market, 5);
    let mut position = outcome.result.unwrap();

    let mut paused = StateDetails { not_paused: false, ..state };
    assert_eq!(
        close_position(&mut market, &mut paused, &mut position, None, 6).unwrap_err(),
        PositionError::Paused
    );

    // bids of 1000 at 100 percent and of 1000 at 99.9 percent
    place(&mut market, 1_000, PAR, true);
    place(&mut market, 1_000, 9_990_000, true);
    let outcome = close_position(&mut market, &mut state, &mut position, None, 6).unwrap();
    // 1000 base bring 1000 quote, the other 500 bring 499
    assert_eq!(outcome.collateral_value, 999);
    assert!(outcome.closed);
    match outcome.watcher {
        WatcherCall::Nothing => {}
        other => panic!("{:?}", other),
    }
    assert_eq!(
        outcome.vault,
        VaultCall {
            margin_delta: 999,
            manage_debt_params: ManageDebtParams { new_debt: 0, initial_debt: 500, interest_received: 0 },
        }
    );
    assert_eq!(state.current_tick, 9_990_000);

    // a limit position that is closed unfilled
    let opened = open_position(
        &mut market,
        &mut state,
        true,
        7,
        1_000,
        500,
        Some(9_900_000),
        true,
        OrderType::Limit,
        7,
    );
    let mut waiting = opened.result.unwrap();
    let outcome = close_position(&mut market, &mut state, &mut waiting, None, 8).unwrap();
    assert_eq!(outcome.collateral_value, 1_000);
    assert!(outcome.closed);
    match outcome.watcher {
        WatcherCall::RemoveTickOrder(tick) => assert_eq!(tick, 9_900_000),
        other => panic!("{:?}", other),
    }
    assert_eq!(outcome.vault.manage_debt_params.initial_debt, 500);
    assert_eq!(state.current_tick, 9_990_000);
}
