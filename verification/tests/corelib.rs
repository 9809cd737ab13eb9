use perp::corelib::constants;
use perp::corelib::order_lib::{CloseOrderParams, LimitOrder, OpenOrderParams};
use perp::corelib::swap_lib::SwapParams;
use perp::types::TickDetails;
use std::collections::HashMap;

type Amount = u128;
type Tick = u64;

struct Book {
    multipliers_bitmaps: HashMap<u64, u128>,
    ticks_details: HashMap<Tick, TickDetails>,
}

fn new_book() -> Book {
    Book { multipliers_bitmaps: HashMap::new(), ticks_details: HashMap::new() }
}

fn _open_order(book: &mut Book, order: &mut LimitOrder) {
    let mut open_order_params = OpenOrderParams {
        order,
        integrals_bitmaps: &mut book.multipliers_bitmaps,
        ticks_details: &mut book.ticks_details,
    };
    open_order_params.open_order();
}

fn _close_order(book: &mut Book, order: &LimitOrder) -> (Amount, Amount) {
    let mut close_order_params = CloseOrderParams {
        order,
        multipliers_bitmaps: &mut book.multipliers_bitmaps,
        ticks_details: &mut book.ticks_details,
    };
    close_order_params.close_order()
}

fn _swap(
    book: &mut Book,
    order_size: Amount,
    buy: bool,
    init_tick: Tick,
    stopping_tick: Tick,
) -> (Amount, Amount, Tick, Vec<Tick>) {
    let mut swap_params = SwapParams {
        buy,
        init_tick,
        stopping_tick,
        order_size,
        integrals_bitmaps: &mut book.multipliers_bitmaps,
        ticks_details: &mut book.ticks_details,
    };
    swap_params._swap()
}

#[test]
fn test_place_order_and_swap() {
    let mut book = new_book();
    // create a sell order at 200% price range

    let reference_tick = 199 * constants::_ONE_PERCENT;
    let mut order1 = LimitOrder::new(1_000_000_000_000, reference_tick, true);
    _open_order(&mut book, &mut order1);

    let amount_to_swap = 1_000_000_000;
    // swap_at_tick
    let (amount_out, _amount_remaining, _resulting_tick, _crossed_ticks) = _swap(
        &mut book,
        amount_to_swap,
        false,
        230 * constants::_ONE_PERCENT,
        reference_tick,
    );

    println!("the amount out is {}", amount_out);
}

#[test]
fn test_place_order_swap_remove_order() {
    let mut book = new_book();
    let reference_tick = 200 * constants::_ONE_PERCENT;
    let mut order1 = LimitOrder::new(1_000_000_000_000, reference_tick, false);
    {
        _open_order(&mut book, &mut order1);
    }

    let amount_to_swap = 1_000_000_000;
    // swap_at_tick
    {
        let (amount_out, _, _, _) =
            _swap(&mut book, amount_to_swap, true, reference_tick, reference_tick);

        // remove order

        let (amount_filled, amount_remaining) = _close_order(&mut book, &order1);
        // the amount filled is the total amount swapped during the swap transaction
        assert_eq!(amount_filled, amount_to_swap);

        // The amount still unfilled from the order is the inital amount for order minus the resulting amount from swapping
        assert_eq!(amount_remaining, order1.order_size - amount_out);
    }
}

#[test]
// testing order
fn test_first_come_first_cleared() {
    let mut book = new_book();
    let reference_tick = 200 * constants::_ONE_PERCENT;
    let mut order1 = LimitOrder::new(1_000_000_000_000, reference_tick, false);
    // open order 1
    {
        _open_order(&mut book, &mut order1);
    }

    let mut order2 = LimitOrder::new(10000000, reference_tick, false);
    //Open order 2
    {
        _open_order(&mut book, &mut order2);
    }
    let amount_to_swap = 1_000_000_000;
    //swap
    let (amount_out, _, _, _) =
        _swap(&mut book, amount_to_swap, true, reference_tick, reference_tick);

    //close order2
    {
        let (amount_filled, amount_remaining) = _close_order(&mut book, &order2);
        // since amount to swap is not big enough to clear order1 ,order2 is not filled
        assert_eq!(amount_filled, 0);
        assert_eq!(amount_remaining, order2.order_size);
    }

    //close order1
    {
        let (amount_filled, amount_remaining) = _close_order(&mut book, &order1);
        // since order 1 was put in first ,it is partially filled
        assert_eq!(amount_filled, amount_to_swap);
        assert_eq!(amount_remaining, order1.order_size - amount_out);
    }
}

#[test]
fn a_swap_at_199_percent_fills_the_order_that_waits_there() {
    let mut book = new_book();
    let reference_tick = 199 * constants::_ONE_PERCENT;
    let mut order1 = LimitOrder::new(1_000_000_000_000, reference_tick, true);
    _open_order(&mut book, &mut order1);
    let (amount_out, amount_remaining, resulting_tick, crossed_ticks) = _swap(
        &mut book,
        1_000_000_000,
        false,
        230 * constants::_ONE_PERCENT,
        reference_tick,
    );
    assert_eq!(amount_out, 1_990_000_000);
    assert_eq!(amount_remaining, 0);
    assert_eq!(resulting_tick, reference_tick);
    assert!(crossed_ticks.is_empty());
    // the order has bought the base that was sold into it
    assert_eq!(_close_order(&mut book, &order1), (1_000_000_000, 1_000_000_000_000 - 1_990_000_000));
    assert!(book.ticks_details.is_empty());
    assert!(book.multipliers_bitmaps.is_empty());
}
