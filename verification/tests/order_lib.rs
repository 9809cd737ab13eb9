use perp::corelib::order_lib::{CloseOrderParams, LimitOrder, OpenOrderParams, Order};
use perp::types::{LiquidityBoundary, TickDetails};
use std::collections::HashMap;

type Amount = u128;
type Tick = u64;

struct Book {
    multipliers_bitmaps: HashMap<u64, u128>,
    ticks_details: HashMap<Tick, TickDetails>,
}

fn new_book() -> Book {
    Book { multipliers_bitmaps: HashMap::new(), ticks_details: HashMap::new() }
}

fn _get_tick_details(book: &Book, tick: Tick) -> TickDetails {
    book.ticks_details.get(&tick).unwrap().clone()
}

fn _open_order(book: &mut Book, order: &mut LimitOrder) {
    let mut open_order_params = OpenOrderParams {
        order,
        integrals_bitmaps: &mut book.multipliers_bitmaps,
        ticks_details: &mut book.ticks_details,
    };
    assert!(open_order_params.can_open());
    open_order_params.open_order();
}

fn _close_order(book: &mut Book, order: &LimitOrder) -> (Amount, Amount) {
    let mut close_order_params = CloseOrderParams {
        order,
        multipliers_bitmaps: &mut book.multipliers_bitmaps,
        ticks_details: &mut book.ticks_details,
    };
    assert!(close_order_params.can_close());
    close_order_params.close_order()
}

#[test]
fn test_place_order() {
    let mut book = new_book();
    let mut order1 = LimitOrder::new(10000000, 1000, true);
    _open_order(&mut book, &mut order1);
    let tick_details = _get_tick_details(&book, 1000);

    assert_eq!(order1.init_lower_bound, 0);

    assert_eq!(tick_details.liq_bounds_token1.lifetime_removed_liquidity, 0);
    assert_eq!(
        tick_details.liq_bounds_token1.upper_bound,
        order1.order_size,
    );
    //

    // Second Order
    let mut order2 = LimitOrder::new(1000000, 1000, true);
    _open_order(&mut book, &mut order2);

    let tick_details = _get_tick_details(&book, 1000);

    assert_eq!(order2.init_lower_bound, order1.order_size);

    assert_eq!(
        tick_details.liq_bounds_token1.upper_bound,
        order1.order_size + order2.order_size,
    )
}

#[test]
fn test_open_and_close_order() {
    let mut book = new_book();
    let mut order1 = LimitOrder::new(10000000, 1000, true);

    //Open order
    {
        _open_order(&mut book, &mut order1);
        let tick_details = _get_tick_details(&book, 1000);
        assert_eq!(order1.init_lower_bound, 0);

        assert_eq!(tick_details.liq_bounds_token1.lifetime_removed_liquidity, 0);
        assert_eq!(
            tick_details.liq_bounds_token1.upper_bound,
            order1.order_size,
        );
    }
    //Close order
    {
        let (amount_out, amount_remaining) = _close_order(&mut book, &order1);

        assert_eq!(amount_out, 0);

        assert_eq!(amount_remaining, order1.order_size);
    }
}

#[test]
fn test_open_close_different_orders() {
    let mut book = new_book();
    let mut order1 = LimitOrder::new(10000000, 1000, true);
    {
        _open_order(&mut book, &mut order1);
        let tick_details = _get_tick_details(&book, 1000);

        assert_eq!(order1.init_lower_bound, 0);

        assert_eq!(tick_details.liq_bounds_token1.lifetime_removed_liquidity, 0);
        assert_eq!(
            tick_details.liq_bounds_token1.upper_bound,
            order1.order_size,
        );
    }
    //

    // Second Order
    let mut order2 = LimitOrder::new(1000000, 1000, true);
    {
        _open_order(&mut book, &mut order2);

        let tick_details = _get_tick_details(&book, 1000);

        assert_eq!(order2.init_lower_bound, order1.order_size);

        assert_eq!(
            tick_details.liq_bounds_token1.upper_bound,
            order1.order_size + order2.order_size,
        );
    }

    let init_tick_details = _get_tick_details(&book, 1000);

    // Remove Order
    {
        let (amount_out, amount_remaining) = _close_order(&mut book, &order1);

        assert_eq!(amount_out, 0);

        assert_eq!(amount_remaining, order1.order_size);
    }

    let tick_details = _get_tick_details(&book, 1000);
    //assert lifetime _removed liquidity is
    assert_eq!(
        tick_details.liq_bounds_token1.lifetime_removed_liquidity,
        init_tick_details
            .liq_bounds_token1
            .lifetime_removed_liquidity
            + order1.order_size
    );

    assert_eq!(
        tick_details.liq_bounds_token1._liquidity_within(),
        order2.order_size
    );
}

#[test]
fn place_then_cancel_clears_the_tick() {
    let mut book = new_book();
    let mut order = LimitOrder::new(10_000_000, 1000, true);
    _open_order(&mut book, &mut order);
    assert_eq!(book.multipliers_bitmaps.get(&0), Some(&(1u128 << 98)));
    let placed = _get_tick_details(&book, 1000);
    assert_eq!(
        placed.liq_bounds_token1,
        LiquidityBoundary { upper_bound: 10_000_000, lower_bound: 0, lifetime_removed_liquidity: 0 }
    );
    assert_eq!(placed.liq_bounds_token0, LiquidityBoundary::default());
    assert_eq!(_close_order(&mut book, &order), (0, 10_000_000));
    // no liquidity is left: the tick and the bitmap of its percent are gone
    assert!(!book.ticks_details.contains_key(&1000));
    assert!(!book.multipliers_bitmaps.contains_key(&0));
}

#[test]
fn place_then_cancel_beside_other_liquidity_moves_all_three_totals() {
    let mut book = new_book();
    let mut resting = LimitOrder::new(700, 5_000, false);
    _open_order(&mut book, &mut resting);
    let mut order = LimitOrder::new(300, 5_000, false);
    _open_order(&mut book, &mut order);
    assert_eq!(order.init_lower_bound, 700);
    assert_eq!(order.init_removed_liquidity, 0);
    assert_eq!(_close_order(&mut book, &order), (0, 300));
    let details = _get_tick_details(&book, 5_000);
    assert_eq!(
        details.liq_bounds_token0,
        LiquidityBoundary { upper_bound: 1_000, lower_bound: 300, lifetime_removed_liquidity: 300 }
    );
    assert_eq!(details.liq_bounds_token0._liquidity_within(), 700);
    // the order that rests begins where the cursor stands now
    assert_eq!(_close_order(&mut book, &resting), (0, 700));
    assert!(!book.ticks_details.contains_key(&5_000));
}

#[test]
fn closing_against_a_cleared_tick_is_a_full_fill() {
    let mut book = new_book();
    // at 200 percent a buy of 1000 quote has bought 500 base
    let order = LimitOrder::new(1_000, 20_000_000, true);
    assert_eq!(_close_order(&mut book, &order), (500, 0));
    // and a sell of 1000 base has brought 2000 quote
    let order = LimitOrder::new(1_000, 20_000_000, false);
    assert_eq!(_close_order(&mut book, &order), (2_000, 0));
    assert!(book.ticks_details.is_empty());
    assert!(book.multipliers_bitmaps.is_empty());
}

#[test]
fn orders_cannot_be_placed_where_no_tick_is() {
    let mut book = new_book();
    let mut at_zero = LimitOrder::new(5, 0, false);
    let mut unaligned = LimitOrder::new(5, 1_500, false);
    let mut too_much = LimitOrder::new(u128::MAX, 2_000, false);
    let mut first = LimitOrder::new(1, 2_000, false);
    _open_order(&mut book, &mut first);
    for order in [&mut at_zero, &mut unaligned, &mut too_much] {
        let params = OpenOrderParams {
            order,
            integrals_bitmaps: &mut book.multipliers_bitmaps,
            ticks_details: &mut book.ticks_details,
        };
        assert!(!params.can_open());
    }
}

#[test]
fn an_order_whose_liquidity_is_gone_cannot_be_closed() {
    let mut book = new_book();
    let mut first = LimitOrder::new(100, 3_000, true);
    _open_order(&mut book, &mut first);
    let mut second = LimitOrder::new(50, 3_000, true);
    _open_order(&mut book, &mut second);
    assert_eq!(_close_order(&mut book, &first), (0, 100));
    // closed a second time, the order would take liquidity that is not its own
    let again = CloseOrderParams {
        order: &first,
        multipliers_bitmaps: &mut book.multipliers_bitmaps,
        ticks_details: &mut book.ticks_details,
    };
    assert!(!again.can_close());
}

#[test]
fn order_updates_through_the_trait() {
    let mut details = TickDetails::default();
    let mut order = LimitOrder::new(40, 7_000, true);
    order._opening_update(&mut details);
    assert_eq!(details.liq_bounds_token1.upper_bound, 40);
    details.liq_bounds_token1._reduce_boundary(10);
    assert!(order.can_close(&details));
    // at seven basis points ten quote have bought 14285 base, rounded down
    assert_eq!(order._closing_update(&mut details), (14_285, 30));
    assert_eq!(
        details.liq_bounds_token1,
        LiquidityBoundary { upper_bound: 40, lower_bound: 40, lifetime_removed_liquidity: 30 }
    );
}

#[test]
fn an_order_begins_where_its_snapshot_and_later_withdrawals_put_it() {
    let mut book = new_book();
    let mut first = LimitOrder::new(100, 4_000, false);
    _open_order(&mut book, &mut first);
    let mut second = LimitOrder::new(60, 4_000, false);
    _open_order(&mut book, &mut second);
    let mut third = LimitOrder::new(40, 4_000, false);
    _open_order(&mut book, &mut third);
    assert_eq!((second.init_lower_bound, second.init_removed_liquidity), (100, 0));
    assert_eq!((third.init_lower_bound, third.init_removed_liquidity), (160, 0));
    // a swap consumes 30, and the third order is withdrawn
    _get_tick_details(&book, 4_000);
    book.ticks_details.get_mut(&4_000).unwrap().liq_bounds_token0._reduce_boundary(30);
    assert_eq!(_close_order(&mut book, &third), (0, 40));
    let side = _get_tick_details(&book, 4_000).liq_bounds_token0;
    assert_eq!((side.lower_bound, side.lifetime_removed_liquidity), (70, 40));
    // the first order begins at 0 + 40, the second at 100 + 40: of the first, 30
    // are filled; at four basis points 30 base bring no whole quote
    assert_eq!(_close_order(&mut book, &second), (0, 60));
    assert_eq!(_close_order(&mut book, &first), (0, 70));
    assert!(!book.ticks_details.contains_key(&4_000));
}
