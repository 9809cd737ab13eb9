use perp::corelib::bitmap_lib::_flip_bit;
use perp::corelib::order_lib::{CloseOrderParams, LimitOrder, OpenOrderParams};
use perp::corelib::price_lib::_equivalent;
use perp::corelib::swap_lib::{SwapParams, SwapTickConstants};
use perp::corelib::tick_lib::{_def_max_tick, _int_and_dec};
use perp::types::TickDetails;
use std::collections::HashMap;

type Amount = u128;
type Tick = u64;

struct Book {
    integrals_bitmaps: HashMap<u64, u128>,
    ticks_details: HashMap<Tick, TickDetails>,
}

fn new_book() -> Book {
    Book { integrals_bitmaps: HashMap::new(), ticks_details: HashMap::new() }
}

fn _fill_tick(book: &mut Book, tick: Tick, amount_in: Amount, buy: bool) {
    let mut tick_details = TickDetails::default();
    if buy {
        tick_details.liq_bounds_token1._add_liquidity(amount_in);
    } else {
        tick_details.liq_bounds_token0._add_liquidity(amount_in);
    }
    let (int, dec) = _int_and_dec(tick);
    book.ticks_details.insert(tick, tick_details);
    let bitmap = book.integrals_bitmaps.entry(int).or_insert(0);
    let new_bitmap = _flip_bit(*bitmap, dec);

    println!("the new bitmap is {}", new_bitmap);
    *bitmap = new_bitmap;
}

fn _swap(
    book: &mut Book,
    order_size: Amount,
    buy: bool,
    init_tick: Tick,
    stopping_tick: Tick,
) -> (Amount, Amount, Tick, Vec<Tick>) {
    let mut swap_params = SwapParams {
        buy,
        init_tick,
        stopping_tick,
        order_size,
        integrals_bitmaps: &mut book.integrals_bitmaps,
        ticks_details: &mut book.ticks_details,
    };
    swap_params._swap()
}

#[test]
fn test_exceeded() {
    let mut book = new_book();
    let order_size = 10000000000;
    let starting_tick = 199_00_000;

    let stopping_tick = _def_max_tick(starting_tick, true);

    let (amount_out, amount_remaining, resulting_tick, crossed_ticks) =
        _swap(&mut book, order_size, true, starting_tick, stopping_tick);

    assert_eq!(amount_out, 0);

    assert_eq!(amount_remaining, order_size);
    assert_eq!(resulting_tick, starting_tick);
    assert_eq!(crossed_ticks.len(), 0);
}

#[test]
fn test_swap_at_tick() {
    let mut book = new_book();
    // test_swap_clearing_tick
    {
        let swapping_tick = 200_00_000;
        let amount_at_tick = 200_000;

        _fill_tick(&mut book, swapping_tick, amount_at_tick, false);

        let order_size: u128 = 10000000000000000000;

        let (amount_out, amount_remaining, resulting_tick, _crossed_ticks) =
            _swap(&mut book, order_size, true, swapping_tick, swapping_tick);

        assert_eq!(amount_out, amount_at_tick);
        assert_eq!(resulting_tick, swapping_tick);
        assert_eq!(amount_remaining, order_size - (2 * amount_at_tick));

        // assert that tick has been cleared and integral's bitmap has also  been cleared
        assert_eq!(book.ticks_details.contains_key(&swapping_tick), false);

        let (int, _) = _int_and_dec(swapping_tick);

        assert_eq!(book.integrals_bitmaps.contains_key(&int), false);
    }

    // test_swap_tick
    {
        let swapping_tick = 200_00_000;
        let amount_at_tick = 200_000_000;

        _fill_tick(&mut book, swapping_tick, amount_at_tick, true);

        let order_size = 100_000;

        let (amount_out, amount_remaining, resulting_tick, _crossed_ticks) =
            _swap(&mut book, order_size, false, swapping_tick, 220_00_000);

        assert_eq!(amount_out, order_size * 2); //trade was executed at 200 percent
        assert_eq!(amount_remaining, 0);
        assert_eq!(resulting_tick, swapping_tick);

        // assert that tick has not  been cleared and integral's bitmap has also not  been cleared
        assert_eq!(book.ticks_details.contains_key(&swapping_tick), true);

        let (int, _) = _int_and_dec(swapping_tick);

        assert_eq!(book.integrals_bitmaps.contains_key(&int), true);
    }
}

#[test]
fn test_swap_across_tick() {
    let mut book = new_book();
    {
        let (tick1, tick2) = (199_00_000, 199_50_000);
        let (amount_at_tick1, amount_at_tick2) = (10_000_000_000_000, 200_000_000_000);

        _fill_tick(&mut book, tick1, amount_at_tick1, true);

        _fill_tick(&mut book, tick2, amount_at_tick2, true);

        let amount_to_swap = 250_000_000_000;
        let current_tick = 200_80_000;
        let (amount_out, amount_remaining, resulting_tick, crossed_ticks) =
            _swap(&mut book, amount_to_swap, false, current_tick, 190_00_000); // randoom stopping tick

        println!("the value out is {}", amount_out);

        assert!(amount_out > amount_at_tick2);
        assert_eq!(amount_remaining, 0);
        assert_eq!(resulting_tick, tick1);
        assert_eq!(crossed_ticks.len(), 1);

        // assert that the tick details has been deleted
        assert_eq!(book.ticks_details.contains_key(&tick2), false);

        // assert that integral'ss bitmap is still available since
        let (int, _) = _int_and_dec(tick1);
        assert!(book.integrals_bitmaps.contains_key(&int))
    }
}

#[test]
fn test_bitmap() {}

#[test]
fn swap_clears_a_tick_on_its_way() {
    let mut book = new_book();
    _fill_tick(&mut book, 20_000_000, 200_000, false);
    let order_size: u128 = 10_000_000_000_000_000_000;
    let (amount_out, amount_remaining, resulting_tick, crossed_ticks) =
        _swap(&mut book, order_size, true, 19_900_000, 22_000_000);
    assert_eq!(amount_out, 200_000);
    assert_eq!(amount_remaining, order_size - 400_000);
    assert_eq!(resulting_tick, 20_000_000);
    assert_eq!(crossed_ticks, vec![20_000_000]);
    assert!(!book.ticks_details.contains_key(&20_000_000));
    assert!(!book.integrals_bitmaps.contains_key(&200));
}

#[test]
fn swap_across_two_ticks_gives_exact_amounts() {
    let mut book = new_book();
    _fill_tick(&mut book, 19_900_000, 10_000_000_000_000, true);
    _fill_tick(&mut book, 19_950_000, 200_000_000_000, true);
    let (amount_out, amount_remaining, resulting_tick, crossed_ticks) =
        _swap(&mut book, 250_000_000_000, false, 20_080_000, 19_000_000);
    // the upper tick costs 200_000_000_000 / 1.995 = 100_250_626_566 base; the rest
    // of 149_749_373_434 base brings 1.99 times as much quote at the lower tick
    assert_eq!(amount_out, 200_000_000_000 + 298_001_253_133);
    assert_eq!(amount_remaining, 0);
    assert_eq!(resulting_tick, 19_900_000);
    assert_eq!(crossed_ticks, vec![19_950_000]);
    let left = book.ticks_details.get(&19_900_000).unwrap();
    assert_eq!(left.liq_bounds_token1.lower_bound, 298_001_253_133);
    assert_eq!(left.liq_bounds_token1.upper_bound, 10_000_000_000_000);
    // the bit of the upper tick is off, the bitmap stands for the whole percent
    assert_eq!(book.integrals_bitmaps.get(&199), Some(&0));
}

#[test]
fn swap_at_its_stop_without_a_bitmap_does_nothing() {
    let mut book = new_book();
    _fill_tick(&mut book, 30_050_000, 77, true);
    for buy in [true, false] {
        let (amount_out, amount_remaining, resulting_tick, crossed_ticks) =
            _swap(&mut book, 1_234, buy, 5_020_000, 5_020_000);
        assert_eq!((amount_out, amount_remaining, resulting_tick), (0, 1_234, 5_020_000));
        assert!(crossed_ticks.is_empty());
    }
    assert_eq!(book.ticks_details.len(), 1);
    assert_eq!(book.integrals_bitmaps.len(), 1);
}

#[test]
fn crossed_ticks_come_in_the_order_of_the_walk() {
    let mut book = new_book();
    for tick in [10_010_000u64, 10_550_000, 10_000_000, 11_020_000, 10_990_000] {
        _fill_tick(&mut book, tick, 10, false);
    }
    let (amount_out, _, resulting_tick, crossed_ticks) =
        _swap(&mut book, 1_000_000, true, 10_000_000, 12_000_000);
    assert_eq!(amount_out, 50);
    assert_eq!(resulting_tick, 11_020_000);
    assert_eq!(crossed_ticks, vec![10_000_000, 10_010_000, 10_550_000, 10_990_000, 11_020_000]);
    assert!(book.ticks_details.is_empty());
    assert!(book.integrals_bitmaps.is_empty());

    for tick in [10_010_000u64, 10_550_000, 10_000_000, 11_020_000, 10_990_000] {
        _fill_tick(&mut book, tick, 10_000, true);
    }
    let (_, amount_remaining, resulting_tick, crossed_ticks) =
        _swap(&mut book, 1_000_000, false, 11_500_000, 10_005_000);
    assert_eq!(crossed_ticks, vec![11_020_000, 10_990_000, 10_550_000, 10_010_000]);
    assert_eq!(resulting_tick, 10_010_000);
    assert!(amount_remaining > 0);
    // the tick below the stop was not touched
    assert!(book.ticks_details.contains_key(&10_000_000));
}

#[test]
fn swap_walks_over_liquidity_of_the_other_side() {
    let mut book = new_book();
    // quote liquidity is nothing to a buying swap
    _fill_tick(&mut book, 10_010_000, 500, true);
    _fill_tick(&mut book, 10_020_000, 500, false);
    let (amount_out, amount_remaining, resulting_tick, crossed_ticks) =
        _swap(&mut book, 100, true, 10_000_000, 10_500_000);
    // at 100.2 percent 100 quote buy 99 base
    assert_eq!((amount_out, amount_remaining, resulting_tick), (99, 0, 10_020_000));
    assert!(crossed_ticks.is_empty());
    assert!(book.ticks_details.contains_key(&10_010_000));
}

#[test]
fn swap_halts_before_its_output_would_overflow() {
    let mut book = new_book();
    _fill_tick(&mut book, 10_000_000, u128::MAX, false);
    _fill_tick(&mut book, 10_010_000, 5, false);
    let (amount_out, amount_remaining, resulting_tick, crossed_ticks) =
        _swap(&mut book, u128::MAX, true, 10_000_000, 10_500_000);
    assert_eq!((amount_out, amount_remaining, resulting_tick), (u128::MAX, 0, 10_000_000));
    assert_eq!(crossed_ticks, vec![10_000_000]);
    _fill_tick(&mut book, 10_000_000, u128::MAX, false);
    let (amount_out, amount_remaining, resulting_tick, crossed_ticks) =
        _swap(&mut book, u128::MAX, true, 9_990_000, 10_500_000);
    assert_eq!((amount_out, resulting_tick), (u128::MAX, 10_000_000));
    assert_eq!(amount_remaining, 0);
    assert_eq!(crossed_ticks, vec![10_000_000]);
    // a walk that has bought already halts before liquidity that does not fit
    _fill_tick(&mut book, 10_000_000, 7, false);
    _fill_tick(&mut book, 10_020_000, u128::MAX, false);
    let (amount_out, amount_remaining, resulting_tick, crossed_ticks) =
        _swap(&mut book, 1_000, true, 10_000_000, 10_500_000);
    assert_eq!((amount_out, amount_remaining, resulting_tick), (12, 988, 10_010_000));
    assert_eq!(crossed_ticks, vec![10_000_000, 10_010_000]);
    assert!(book.ticks_details.contains_key(&10_020_000));
}

#[test]
fn steps_at_one_tick() {
    let mut book = new_book();
    _fill_tick(&mut book, 20_000_000, 1_000, false);
    _fill_tick(&mut book, 5_000_000, 1_000, true);
    let mut params = SwapParams {
        buy: true,
        init_tick: 0,
        stopping_tick: 0,
        order_size: 0,
        integrals_bitmaps: &mut book.integrals_bitmaps,
        ticks_details: &mut book.ticks_details,
    };
    // at 200 percent 600 quote buy 300 base
    assert_eq!(
        params._buy_at_tick(SwapTickConstants { tick: 20_000_000, order_size: 600 }),
        (300, 0, false)
    );
    // the other 700 base cost 1400 quote
    assert_eq!(
        params._buy_at_tick(SwapTickConstants { tick: 20_000_000, order_size: 2_000 }),
        (700, 600, true)
    );
    // at 50 percent 100 base bring 50 quote
    assert_eq!(
        params._sell_at_tick(SwapTickConstants { tick: 5_000_000, order_size: 100 }),
        (50, 0, false)
    );
    // a tick without details gives nothing
    assert_eq!(
        params._sell_at_tick(SwapTickConstants { tick: 6_000_000, order_size: 100 }),
        (0, 100, false)
    );
}

fn bit_is_set(bitmap: u128, decimal: u64) -> bool {
    bitmap & (1u128 << (99 - decimal)) != 0
}

/// The invariant of a book, tick by tick and bit by bit.
fn assert_book_is_well_formed(book: &Book) {
    for (tick, details) in &book.ticks_details {
        assert!(*tick > 0 && tick % 1_000 == 0);
        for side in [details.liq_bounds_token0, details.liq_bounds_token1] {
            assert!(side.lifetime_removed_liquidity <= side.lower_bound);
            assert!(side.lower_bound <= side.upper_bound);
            let consumed = side.lower_bound - side.lifetime_removed_liquidity;
            assert!(side.upper_bound >= consumed + side.lifetime_removed_liquidity);
        }
        assert!(book.integrals_bitmaps.contains_key(&_int_and_dec(*tick).0));
        // no order of size zero was placed: every tick holds liquidity
        assert!(
            details.liq_bounds_token0._liquidity_within() > 0
                || details.liq_bounds_token1._liquidity_within() > 0
        );
    }
    for (integral, bitmap) in &book.integrals_bitmaps {
        assert!(*bitmap < 1u128 << 100);
        for decimal in 1..=99u64 {
            let tick = integral * 100_000 + decimal * 1_000;
            assert_eq!(bit_is_set(*bitmap, decimal), book.ticks_details.contains_key(&tick));
        }
        assert!(*bitmap != 0 || book.ticks_details.contains_key(&(integral * 100_000)));
    }
}

#[test]
fn the_book_stays_well_formed() {
    let mut book = new_book();
    let mut orders = Vec::new();
    for (size, tick, buy) in [
        (500u128, 10_000_000u64, false),
        (300, 10_010_000, false),
        (200, 10_010_000, false),
        (900, 10_990_000, false),
        (50, 11_000_000, false),
        (70, 9_990_000, true),
        (80, 9_000_000, true),
        (10, 10_010_000, true),
    ] {
        let mut order = LimitOrder::new(size, tick, buy);
        let mut params = OpenOrderParams {
            order: &mut order,
            integrals_bitmaps: &mut book.integrals_bitmaps,
            ticks_details: &mut book.ticks_details,
        };
        params.open_order();
        orders.push(order);
        assert_book_is_well_formed(&book);
    }
    for (size, buy, from, to) in [
        (600u128, true, 9_500_000u64, 10_500_000u64),
        (40, false, 10_200_000, 9_500_000),
        (1, true, 10_000_000, 10_000_000),
        (2_000, true, 10_000_000, 12_000_000),
        (1_000, false, 12_000_000, 0),
    ] {
        _swap(&mut book, size, buy, from, to);
        assert_book_is_well_formed(&book);
    }
    for order in &orders {
        let mut params = CloseOrderParams {
            order,
            multipliers_bitmaps: &mut book.integrals_bitmaps,
            ticks_details: &mut book.ticks_details,
        };
        assert!(params.can_close());
        params.close_order();
        assert_book_is_well_formed(&book);
    }
    assert!(book.ticks_details.is_empty());
    assert!(book.integrals_bitmaps.is_empty());
}

#[test]
fn a_step_conserves_value() {
    for tick in [1_000u64, 3_333_000, 9_999_000, 10_000_000, 10_001_000, 19_950_000, 123_456_000] {
        for liquidity in [1u128, 7, 1_000, 999_999_999_999] {
            for size in [1u128, 3, 999, 1_000_000, 10_000_000_000_000] {
                for buy in [true, false] {
                    let mut book = new_book();
                    _fill_tick(&mut book, tick, liquidity, !buy);
                    let mut params = SwapParams {
                        buy,
                        init_tick: tick,
                        stopping_tick: tick,
                        order_size: size,
                        integrals_bitmaps: &mut book.integrals_bitmaps,
                        ticks_details: &mut book.ticks_details,
                    };
                    let step = SwapTickConstants { tick, order_size: size };
                    let (received, left, _) =
                        if buy { params._buy_at_tick(step) } else { params._sell_at_tick(step) };
                    let paid = size - left;
                    let price = tick as u128;
                    assert!(received <= liquidity);
                    let worth = _equivalent(received, price, !buy);
                    let bought = _equivalent(paid, price, buy);
                    assert!(worth <= paid && bought <= received);
                    assert!(worth == paid || bought == received);
                }
            }
        }
    }
}
