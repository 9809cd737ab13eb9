use perp::corelib::constants::_ONE_HOUR;
use perp::corelib::order_lib::LimitOrder;
use perp::market::Market;
use perp::corelib::calc_lib::_checked_interest;
use perp::position::{
    max_or_default_max, ManageDebtParams, OrderType, PositionDetails, PositionError,
    PositionOrderType, _order_size,
};
use perp::types::{FundingRateTracker, LiquidityBoundary};

const PAR: u64 = 10_000_000; // the tick of 100 percent, where base and quote are worth the same
const DOUBLE: u64 = 20_000_000; // the tick of 200 percent

fn place(market: &mut Market, size: u128, tick: u64, buy: bool) -> LimitOrder {
    let mut order = LimitOrder::new(size, tick, buy);
    assert!(market._can_open_order(&order));
    market._open_order(&mut order);
    order
}

fn market_position(long: bool, collateral_value: u128, debt_value: u128, volume_share: u128) -> PositionDetails {
    PositionDetails {
        entry_tick: PAR,
        long,
        collateral_value,
        debt_value,
        volume_share,
        interest_rate: 0,
        order_type: PositionOrderType::Market,
        timestamp: 0,
    }
}

#[test]
fn max_or_default_max_keeps_a_limit_within_five_percent() {
    assert_eq!(max_or_default_max(Some(20_500_000), DOUBLE, true), 20_500_000);
    assert_eq!(max_or_default_max(Some(21_000_000), DOUBLE, true), 21_000_000);
    assert_eq!(max_or_default_max(Some(21_000_001), DOUBLE, true), 21_000_000);
    assert_eq!(max_or_default_max(Some(19_500_000), DOUBLE, false), 19_500_000);
    assert_eq!(max_or_default_max(Some(19_000_000), DOUBLE, false), 19_000_000);
    assert_eq!(max_or_default_max(Some(18_999_999), DOUBLE, false), 19_000_000);
    // a limit on the wrong side of the market is one within the default
    assert_eq!(max_or_default_max(Some(5), DOUBLE, true), 5);
    assert_eq!(max_or_default_max(Some(u64::MAX), DOUBLE, false), u64::MAX);
    // without a limit the swap may slip half a percent
    assert_eq!(max_or_default_max(None, DOUBLE, true), 20_100_000);
    assert_eq!(max_or_default_max(None, DOUBLE, false), 19_900_000);
}

#[test]
fn order_size_is_counted_in_the_asset_of_the_order() {
    assert_eq!(_order_size(1_000, 500, DOUBLE, true), Ok(1_500));
    // a short sells base: at 200 percent 1000 quote are 500 base
    assert_eq!(_order_size(1_000, 500, DOUBLE, false), Ok(750));
    assert_eq!(_order_size(1_000, 500, 0, true), Ok(1_500));
    assert_eq!(_order_size(1_000, 500, 0, false), Err(PositionError::RangeError));
    assert_eq!(_order_size(u128::MAX, 1, DOUBLE, true), Err(PositionError::Overflow));
    assert_eq!(_order_size(u128::MAX, 1, DOUBLE, false), Err(PositionError::Overflow));
    // at a tenth of a basis point the base does not fit
    assert_eq!(_order_size(u128::MAX / 2, 0, 100, false), Err(PositionError::Overflow));
}

#[test]
fn a_limit_position_waits_in_the_book() {
    let mut market = Market::new();
    let opened = market._open_position(true, OrderType::Limit, 1_000, 500, 7, DOUBLE, 19_900_000, 99);
    let (position, resulting_tick, crossed_ticks) = opened.unwrap();
    assert_eq!(resulting_tick, DOUBLE);
    assert!(crossed_ticks.is_empty());
    assert_eq!(
        position,
        PositionDetails {
            entry_tick: 19_900_000,
            long: true,
            collateral_value: 1_000,
            debt_value: 500,
            volume_share: 0,
            interest_rate: 7,
            order_type: PositionOrderType::Limit(LimitOrder {
                buy: true,
                order_size: 1_500,
                init_removed_liquidity: 0,
                init_lower_bound: 0,
                ref_tick: 19_900_000,
            }),
            timestamp: 0,
        }
    );
    let details = market._get_tick_details(19_900_000).unwrap();
    assert_eq!(
        details.liq_bounds_token1,
        LiquidityBoundary { upper_bound: 1_500, lower_bound: 0, lifetime_removed_liquidity: 0 }
    );
    assert_eq!(market.tracker(), FundingRateTracker::default());

    // a short sells base above the market: 1500 quote are 742 base at 202 percent
    let opened = market._open_position(false, OrderType::Limit, 1_000, 500, 7, DOUBLE, 20_200_000, 99);
    let (position, _, _) = opened.unwrap();
    match position.order_type {
        PositionOrderType::Limit(order) => {
            assert_eq!((order.order_size, order.buy, order.ref_tick), (495 + 247, false, 20_200_000))
        }
        PositionOrderType::Market => panic!("the position waits for its order"),
    }
}

#[test]
fn a_limit_order_has_to_lie_strictly_inside_the_market() {
    let mut market = Market::new();
    for (long, tick) in [
        (true, DOUBLE),
        (true, DOUBLE + 1_000),
        (false, DOUBLE),
        (false, DOUBLE - 1_000),
        (true, 0),
        (true, 19_900_500),
        (false, 20_100_500),
    ] {
        assert_eq!(
            market._open_position(long, OrderType::Limit, 1_000, 500, 7, DOUBLE, tick, 99),
            Err(PositionError::RangeError)
        );
    }
    assert_eq!(
        market._open_position(true, OrderType::Limit, u128::MAX, 1, 7, DOUBLE, PAR, 99),
        Err(PositionError::Overflow)
    );
    place(&mut market, u128::MAX - 10, PAR, true);
    assert_eq!(
        market._open_position(true, OrderType::Limit, 10, 1, 7, DOUBLE, PAR, 99),
        Err(PositionError::Overflow)
    );
    assert_eq!(market.ticks_details().len(), 1);
}

#[test]
fn a_market_position_without_liquidity_is_not_opened() {
    let mut market = Market::new();
    place(&mut market, 1_000, 10_600_000, false);
    for long in [true, false] {
        assert_eq!(
            market._open_position(long, OrderType::Market, 1_000, 500, 7, PAR, 10_500_000, 99),
            Err(PositionError::NoLiquidity)
        );
    }
    assert_eq!(market.ticks_details().len(), 1);
    assert_eq!(market.tracker(), FundingRateTracker::default());
}

#[test]
fn open_and_close_a_long_market_position_at_one_price() {
    let mut market = Market::new();
    place(&mut market, 1_000_000, PAR, false);
    let (mut position, resulting_tick, crossed_ticks) = market
        ._open_position(true, OrderType::Market, 1_000, 500, 7, PAR, 10_500_000, 42)
        .unwrap();
    assert_eq!(resulting_tick, PAR);
    assert!(crossed_ticks.is_empty());
    assert_eq!(
        position,
        PositionDetails {
            entry_tick: PAR,
            long: true,
            collateral_value: 1_000,
            debt_value: 500,
            volume_share: 1_500,
            interest_rate: 7,
            order_type: PositionOrderType::Market,
            timestamp: 42,
        }
    );
    assert_eq!(
        market.tracker(),
        FundingRateTracker {
            net_volume_long: 1_500,
            total_long_shares: 1_500,
            net_volume_short: 0,
            total_short_shares: 0
        }
    );
    assert_eq!(market._get_tick_details(PAR).unwrap().liq_bounds_token0.lower_bound, 1_500);

    // someone bids at the same price, and the position is closed before an hour has passed
    place(&mut market, 1_000_000, PAR, true);
    let closed = market._close_market_long_position(&mut position, PAR, 9_500_000, 42 + _ONE_HOUR);
    let (profit, resulting_tick, crossed_ticks, manage_debt_params, gone) = closed.unwrap();
    assert_eq!(profit, 1_000);
    assert_eq!(resulting_tick, PAR);
    assert!(crossed_ticks.is_empty());
    assert_eq!(
        manage_debt_params,
        ManageDebtParams { new_debt: 0, initial_debt: 500, interest_received: 0 }
    );
    assert!(gone);
    assert_eq!(market.tracker(), FundingRateTracker::default());
}

#[test]
fn open_and_close_a_short_market_position_at_one_price() {
    let mut market = Market::new();
    place(&mut market, 1_000_000, PAR, true);
    let (mut position, _, _) = market
        ._open_position(false, OrderType::Market, 1_000, 500, 7, PAR, 9_500_000, 42)
        .unwrap();
    assert_eq!(
        (position.collateral_value, position.debt_value, position.volume_share, position.entry_tick),
        (1_000, 500, 1_500, PAR)
    );
    assert_eq!(market.tracker().net_volume_short, 1_500);
    place(&mut market, 1_000_000, PAR, false);
    let closed = market._close_market_short_position(&mut position, PAR, 10_500_000, 42);
    assert_eq!(
        closed,
        Ok((1_000, PAR, vec![], ManageDebtParams { new_debt: 0, initial_debt: 500, interest_received: 0 }, true))
    );
}

#[test]
fn a_market_position_that_is_filled_in_part_gives_the_rest_back() {
    // what stays unpaid comes off the debt first
    let mut market = Market::new();
    place(&mut market, 1_200, PAR, false);
    let (position, resulting_tick, crossed_ticks) = market
        ._open_position(true, OrderType::Market, 1_000, 500, 7, PAR, 10_500_000, 42)
        .unwrap();
    assert_eq!((position.collateral_value, position.debt_value), (1_000, 200));
    assert_eq!(position.volume_share, 1_200);
    assert_eq!(resulting_tick, PAR);
    assert_eq!(crossed_ticks, vec![PAR]);

    // and then off the collateral
    let mut market = Market::new();
    place(&mut market, 900, PAR, false);
    let (position, _, _) = market
        ._open_position(true, OrderType::Market, 1_000, 500, 7, PAR, 10_500_000, 42)
        .unwrap();
    assert_eq!((position.collateral_value, position.debt_value), (900, 0));
    assert_eq!(position.volume_share, 900);
    assert_eq!(market.tracker().net_volume_long, 900);

    // a short is counted in quote all the same: at 200 percent 750 base were to be
    // sold, 300 quote bought 150 of them, and 600 base are 1200 quote
    let mut market = Market::new();
    place(&mut market, 300, DOUBLE, true);
    let (position, _, _) = market
        ._open_position(false, OrderType::Market, 1_000, 500, 7, DOUBLE, 19_500_000, 42)
        .unwrap();
    assert_eq!((position.collateral_value, position.debt_value), (300, 0));
    assert_eq!(position.volume_share, 300);
    assert_eq!(market.tracker().net_volume_short, 300);
}

#[test]
fn a_market_position_that_cannot_be_closed_in_full_stays_open() {
    let mut market = Market::new();
    assert_eq!(market._calc_position_volume_share(1_500, true), 1_500);
    let mut position = market_position(true, 1_000, 500, 1_500);
    position.interest_rate = 100_000; // one percent an hour
    // only 600 quote are bid for the 1500 base
    place(&mut market, 600, PAR, true);
    let now = 2 * _ONE_HOUR + 1;
    let closed = market._close_market_long_position(&mut position, PAR, 9_500_000, now);
    let (profit, resulting_tick, crossed_ticks, manage_debt_params, gone) = closed.unwrap();
    // two hours of interest on 500 are 10; the proceeds of 600 pay debt and interest
    assert_eq!(profit, 90);
    assert_eq!(resulting_tick, PAR);
    assert_eq!(crossed_ticks, vec![PAR]);
    assert_eq!(
        manage_debt_params,
        ManageDebtParams { new_debt: 0, initial_debt: 500, interest_received: 10 }
    );
    assert!(!gone);
    assert_eq!(
        position,
        PositionDetails {
            entry_tick: PAR,
            long: true,
            collateral_value: 900,
            debt_value: 0,
            volume_share: 900,
            interest_rate: 100_000,
            order_type: PositionOrderType::Market,
            timestamp: 0,
        }
    );
    assert_eq!(market.tracker().net_volume_long, 900);
    assert_eq!(market.tracker().total_long_shares, 900);
}

#[test]
fn proceeds_that_do_not_cover_the_debt_leave_the_rest_as_debt() {
    let mut market = Market::new();
    market._calc_position_volume_share(1_500, true);
    let mut position = market_position(true, 1_000, 500, 1_500);
    position.timestamp = 1_000;
    place(&mut market, 300, PAR, true);
    let closed = market._close_market_long_position(&mut position, PAR, 9_500_000, 2_000);
    let (profit, _, _, manage_debt_params, gone) = closed.unwrap();
    assert_eq!(profit, 0);
    assert_eq!(
        manage_debt_params,
        ManageDebtParams { new_debt: 200, initial_debt: 500, interest_received: 0 }
    );
    assert!(!gone);
    assert_eq!((position.collateral_value, position.debt_value, position.volume_share), (1_000, 200, 1_200));
    // the position was less than an hour old: its hour starts anew
    assert_eq!(position.timestamp, 2_000);
}

#[test]
fn closing_errors_leave_everything_as_it_was() {
    let mut market = Market::new();
    market._calc_position_volume_share(1_500, true);
    place(&mut market, 1_000_000, PAR, true);
    let tracker = market.tracker();
    let details = market._get_tick_details(PAR).unwrap();

    // more shares than the side has
    let mut position = market_position(true, 1_000, 500, 1_501);
    let before = position;
    assert_eq!(
        market._close_market_long_position(&mut position, PAR, 9_500_000, 5),
        Err(PositionError::Inconsistent)
    );
    // a side without shares
    let mut short = market_position(false, 1_000, 500, 0);
    assert_eq!(
        market._close_market_short_position(&mut short, PAR, 10_500_000, 5),
        Err(PositionError::Inconsistent)
    );
    // a long that entered at the tick without a price
    let mut at_zero = market_position(true, 1_000, 500, 1_500);
    at_zero.entry_tick = 0;
    assert_eq!(
        market._close_market_long_position(&mut at_zero, PAR, 9_500_000, 5),
        Err(PositionError::Inconsistent)
    );
    // proceeds of 1500 against a debt of 5000
    let mut indebted = market_position(true, 1_000, 5_000, 1_500);
    assert_eq!(
        market._close_market_long_position(&mut indebted, PAR, 9_500_000, 5),
        Err(PositionError::Underwater)
    );
    // interest that does not fit
    let mut old = market_position(true, 1_000, u128::MAX / 2, 1_500);
    old.interest_rate = u32::MAX;
    assert_eq!(
        market._close_market_long_position(&mut old, PAR, 9_500_000, u64::MAX),
        Err(PositionError::Overflow)
    );
    assert_eq!(position, before);
    assert_eq!(market.tracker(), tracker);
    assert_eq!(market._get_tick_details(PAR), Some(details));
    assert_eq!(market.ticks_details().len(), 1);
    assert_eq!(market.integrals_bitmaps().len(), 1);
}

#[test]
fn closing_an_unfilled_limit_position_gives_the_collateral_back() {
    let mut market = Market::new();
    let (mut position, _, _) = market
        ._open_position(true, OrderType::Limit, 1_000, 500, 7, DOUBLE, 19_900_000, 99)
        .unwrap();
    let closed = market._close_limit_long_position(&mut position, 100);
    assert_eq!(
        closed,
        Ok((1_000, ManageDebtParams { new_debt: 0, initial_debt: 500, interest_received: 0 }, true))
    );
    assert!(market.ticks_details().is_empty());
    assert!(market.integrals_bitmaps().is_empty());
}

#[test]
fn closing_a_limit_position_that_is_filled_in_part_converts_it() {
    let mut market = Market::new();
    let (mut position, _, _) = market
        ._open_position(true, OrderType::Limit, 1_000, 500, 7, DOUBLE, PAR, 99)
        .unwrap();
    // a swap sells 400 base into the order of 1500 quote
    assert_eq!(market._swap(400, false, PAR, PAR), (400, 0, PAR, vec![]));
    let closed = market._close_limit_long_position(&mut position, 100);
    // 1100 stayed unfilled: 500 come off the debt, 600 off the collateral
    assert_eq!(
        closed,
        Ok((600, ManageDebtParams { new_debt: 0, initial_debt: 500, interest_received: 0 }, false))
    );
    assert_eq!(
        position,
        PositionDetails {
            entry_tick: PAR,
            long: true,
            collateral_value: 400,
            debt_value: 0,
            volume_share: 400,
            interest_rate: 7,
            order_type: PositionOrderType::Market,
            timestamp: 100,
        }
    );
    assert_eq!(market.tracker().net_volume_long, 400);
    assert!(market.ticks_details().is_empty());

    // a short at 200 percent: 750 base wait, 300 quote buy 150 of them
    let mut market = Market::new();
    let (mut position, _, _) = market
        ._open_position(false, OrderType::Limit, 1_000, 500, 7, PAR, DOUBLE, 99)
        .unwrap();
    assert_eq!(market._swap(300, true, DOUBLE, DOUBLE), (150, 0, DOUBLE, vec![]));
    let closed = market._close_limit_short_position(&mut position, 100);
    // 600 base, that is 1200 quote, stayed unfilled
    assert_eq!(
        closed,
        Ok((700, ManageDebtParams { new_debt: 0, initial_debt: 500, interest_received: 0 }, false))
    );
    assert_eq!((position.collateral_value, position.debt_value), (300, 0));
    assert_eq!(position.volume_share, 300);
}

#[test]
fn closing_a_limit_position_whose_order_does_not_fit_the_book_fails() {
    let mut market = Market::new();
    let (mut position, _, _) = market
        ._open_position(true, OrderType::Limit, 1_000, 500, 7, DOUBLE, PAR, 99)
        .unwrap();
    let mut copy = position;
    assert!(market._close_limit_long_position(&mut position, 100).is_ok());
    place(&mut market, 10, PAR, true);
    let before = copy;
    assert_eq!(market._close_limit_long_position(&mut copy, 100), Err(PositionError::Inconsistent));
    assert_eq!(market._convert_position(&mut copy, 100), Err(PositionError::Inconsistent));
    assert_eq!(copy, before);
    // a position that is open already is left alone
    let mut open = market_position(true, 1_000, 500, 0);
    assert_eq!(
        market._close_limit_long_position(&mut open, 100),
        Ok((0, ManageDebtParams::default(), false))
    );
    assert_eq!(market._convert_position(&mut open, 100), Ok(false));
}

#[test]
fn the_watcher_converts_a_position_once_its_tick_was_crossed() {
    let mut market = Market::new();
    let (mut position, _, _) = market
        ._open_position(true, OrderType::Limit, 1_000, 500, 7, DOUBLE, PAR, 99)
        .unwrap();
    // the whole order is swept
    assert_eq!(market._swap(2_000, false, PAR, PAR), (1_500, 500, PAR, vec![PAR]));
    assert_eq!(market._convert_position(&mut position, 777), Ok(true));
    assert_eq!(
        position,
        PositionDetails {
            entry_tick: PAR,
            long: true,
            collateral_value: 1_000,
            debt_value: 500,
            volume_share: 1_500,
            interest_rate: 7,
            order_type: PositionOrderType::Market,
            timestamp: 777,
        }
    );
    // converted before its order was filled, the position says so
    let mut market = Market::new();
    let (mut position, _, _) = market
        ._open_position(true, OrderType::Limit, 1_000, 500, 7, DOUBLE, PAR, 99)
        .unwrap();
    assert_eq!(market._convert_position(&mut position, 777), Ok(false));
    assert_eq!(position.order_type, PositionOrderType::Market);
}

#[test]
fn interest_where_it_fits() {
    assert_eq!(_checked_interest(1_000_000_000, 100_000, 0, 3 * _ONE_HOUR + 1), Some(30_000_000));
    assert_eq!(_checked_interest(1_000_000_000, 100_000, 0, 3 * _ONE_HOUR), Some(20_000_000));
    assert_eq!(_checked_interest(u128::MAX, u32::MAX, 0, 0), None);
    assert_eq!(_checked_interest(u128::MAX, 10_000_000, 0, 2 * _ONE_HOUR + 1), None);
    assert_eq!(_checked_interest(u128::MAX, 10_000_000, 0, _ONE_HOUR + 1), Some(u128::MAX));
}

#[test]
fn profit_of_a_position_in_percent() {
    let mut market = Market::new();
    market._calc_position_volume_share(1_500, true);
    market._calc_position_volume_share(1_500, false);
    let long = market_position(true, 1_000, 500, 1_500);
    // the price has gone from 100 to 120 percent: 1500 base are worth 1800 quote
    assert_eq!(market._calculate_position_pnl(&long, 12_000_000, 0), Some(2_000_000));
    assert_eq!(market._calculate_position_pnl(&long, PAR, 0), Some(0));
    // and from 100 to 90 percent
    assert_eq!(market._calculate_position_pnl(&long, 9_000_000, 0), Some(-1_000_000));
    // interest of one percent an hour for three hours: 15 of 1500
    let mut charged = long;
    charged.interest_rate = 100_000;
    assert_eq!(market._calculate_position_pnl(&charged, PAR, 3 * _ONE_HOUR + 1), Some(-100_000));
    // a short is counted in base: at 80 percent 1500 quote buy 1875 base
    let short = market_position(false, 1_000, 500, 1_500);
    assert_eq!(market._calculate_position_pnl(&short, 8_000_000, 0), Some(2_500_000));
    assert_eq!(market._calculate_position_pnl(&short, 0, 0), None);
    let mut nothing = long;
    nothing.collateral_value = 0;
    nothing.debt_value = 0;
    assert_eq!(market._calculate_position_pnl(&nothing, PAR, 0), None);
    let mut stranger = long;
    stranger.volume_share = 1_501;
    assert_eq!(market._calculate_position_pnl(&stranger, PAR, 0), None);
    // counting the profit takes nothing out of the pools
    assert_eq!(market.tracker().total_long_shares, 1_500);
}

#[test]
fn a_stored_book_is_read_back_tick_by_tick() {
    let mut market = Market::new();
    place(&mut market, 700, 10_010_000, false);
    place(&mut market, 300, 10_990_000, true);
    place(&mut market, 50, PAR, true);
    let mut copy = Market::new();
    for (tick, details) in market.ticks_details() {
        assert!(copy.restore_tick(*tick, *details));
        // a tick is taken once
        assert!(!copy.restore_tick(*tick, *details));
    }
    assert_eq!(copy.ticks_details(), market.ticks_details());
    assert_eq!(copy.integrals_bitmaps(), market.integrals_bitmaps());
    // 100.10 percent is decimal 10 of percent 100, 109.90 percent decimal 90 of percent 109
    assert_eq!(copy.integrals_bitmaps().get(&100), Some(&(1u128 << 89)));
    assert_eq!(copy.integrals_bitmaps().get(&109), Some(&(1u128 << 9)));
    // what a book cannot hold is not taken
    let details = market._get_tick_details(PAR).unwrap();
    assert!(!copy.restore_tick(0, details));
    assert!(!copy.restore_tick(10_000_500, details));
    let mut broken = details;
    broken.liq_bounds_token1.lower_bound = 51;
    assert!(!copy.restore_tick(10_020_000, broken));
    broken.liq_bounds_token1.lower_bound = 10;
    broken.liq_bounds_token1.lifetime_removed_liquidity = 11;
    assert!(!copy.restore_tick(10_020_000, broken));
    assert_eq!(copy.ticks_details().len(), 3);
}
