use vstd::prelude::*;
use std::collections::HashMap;
use crate::types::{LiquidityBoundary, TickDetails};
use super::bitmap_lib::lemma_flip_twice;
use super::book_lib::{
    _insert_tick,
    _remove_tick,
    lemma_update_tick_keeps_book,
    spec_book_live,
    spec_book_wf,
    spec_insert_tick,
    spec_remove_tick,
    Bitmaps,
    Ticks,
};
use super::price_lib::{_checked_equivalent, _equivalent, lemma_equivalent_zero, spec_equivalent};
use super::tick_lib::{
    _tick_to_price,
    lemma_tick_to_price,
    spec_aligned,
    spec_decimal,
    spec_integral,
    spec_tick_to_price,
    spec_tick_zero,
};
use super::constants::_ONE_BASIS_POINT;

verus! {

broadcast use vstd::std_specs::hash::group_hash_axioms;

pub type Amount = u128;

pub type Tick = u64;

pub type MB = HashMap<u64, u128>;

pub type TD = HashMap<Tick, TickDetails>;

/// What an order does to the details of its tick when it is placed and when it is
/// closed.
pub trait Order: Sized {
    /// Whether the order can be placed on a tick with these details.
    spec fn spec_can_open(&self, details: TickDetails) -> bool;

    /// The order and the details after the order was placed.
    spec fn spec_opening_update(&self, details: TickDetails) -> (Self, TickDetails);

    /// Whether the order can be closed against a tick with these details.
    spec fn spec_can_close(&self, details: TickDetails) -> bool;

    /// What closing the order returns, as the amount received and the amount that
    /// stayed unfilled, and the details after it.
    spec fn spec_closing_update(&self, details: TickDetails) -> ((Amount, Amount), TickDetails);

    /// Places the order on its tick.
    fn _opening_update(&mut self, ref_tick_details: &mut TickDetails)
        requires
            old(self).spec_can_open(*old(ref_tick_details)),
        ensures
            (*final(self), *final(ref_tick_details)) == old(self).spec_opening_update(
                *old(ref_tick_details),
            ),
    ;

    /// Closes the order against its tick.
    fn _closing_update(&self, ref_tick_details: &mut TickDetails) -> (r: (Amount, Amount))
        requires
            self.spec_can_close(*old(ref_tick_details)),
        ensures
            (r, *final(ref_tick_details)) == self.spec_closing_update(*old(ref_tick_details)),
    ;
}

/// The details of `tick` in `ticks`, or those of a tick on which nothing was
/// placed yet.
pub open spec fn spec_details_or_empty(ticks: Ticks, tick: u64) -> TickDetails {
    if ticks.contains_key(tick) {
        ticks[tick]
    } else {
        TickDetails::spec_empty()
    }
}

/// Whether `order` can be placed in a book with these ticks: its tick has a
/// price and names a basis point exactly, and the order still fits on its side of
/// the tick.
pub open spec fn spec_can_open_order(ticks: Ticks, order: LimitOrder) -> bool {
    &&& order.ref_tick > 0
    &&& spec_aligned(order.ref_tick as int)
    &&& order.spec_can_open(spec_details_or_empty(ticks, order.ref_tick))
}

/// The book after `order` was placed: the details of its tick hold its size, and
/// the tick is initialised where it was not.
pub open spec fn spec_open_order(bitmaps: Bitmaps, ticks: Ticks, order: LimitOrder) -> (Bitmaps, Ticks) {
    spec_insert_tick(
        bitmaps,
        ticks,
        order.ref_tick,
        order.spec_opening_update(spec_details_or_empty(ticks, order.ref_tick)).1,
    )
}

/// The order as it stands once it is placed, its snapshot taken.
pub open spec fn spec_opened_order(ticks: Ticks, order: LimitOrder) -> LimitOrder {
    order.spec_opening_update(spec_details_or_empty(ticks, order.ref_tick)).0
}

/// Whether `order` can be closed in a book with these ticks: against the details
/// of its tick where the tick is initialised, and else wherever what the whole
/// order has bought can be counted, at a price above zero for a buy, and fits in
/// an amount.
pub open spec fn spec_can_close_order(ticks: Ticks, order: LimitOrder) -> bool {
    if ticks.contains_key(order.ref_tick) {
        order.spec_can_close(ticks[order.ref_tick])
    } else {
        (order.buy ==> order.ref_tick > 0) && order.spec_full_amount_out() <= u128::MAX
    }
}

/// What closing `order` returns: the amount received and the amount that stayed
/// unfilled. An order whose tick is no longer initialised was swept through and is
/// filled in full.
pub open spec fn spec_close_order_result(ticks: Ticks, order: LimitOrder) -> (Amount, Amount) {
    if ticks.contains_key(order.ref_tick) {
        order.spec_closing_update(ticks[order.ref_tick]).0
    } else {
        (order.spec_full_amount_out() as u128, 0)
    }
}

/// The book after `order` was closed: the unfilled part is withdrawn from its
/// tick, and the tick is cleared where that leaves no liquidity on either side.
pub open spec fn spec_close_order(bitmaps: Bitmaps, ticks: Ticks, order: LimitOrder) -> (Bitmaps, Ticks) {
    if ticks.contains_key(order.ref_tick) {
        let details = order.spec_closing_update(ticks[order.ref_tick]).1;
        if details.spec_is_cleared() {
            spec_remove_tick(bitmaps, ticks, order.ref_tick)
        } else {
            (bitmaps, ticks.insert(order.ref_tick, details))
        }
    } else {
        (bitmaps, ticks)
    }
}

/// Where a placed order begins on the fill cursor of its side, whatever has
/// happened to the side since: at what had been placed before it, moved on by what
/// has been withdrawn since it was placed.
pub proof fn lemma_order_lower(ticks: Ticks, order: LimitOrder, later: LiquidityBoundary)
    ensures
        ({
            let placed = spec_opened_order(ticks, order);
            let side = spec_details_or_empty(ticks, order.ref_tick).spec_side(order.buy);
            &&& placed.init_lower_bound == side.upper_bound
            &&& placed.init_removed_liquidity == side.lifetime_removed_liquidity
            &&& placed.spec_order_lower(later) == placed.init_lower_bound + (
            later.lifetime_removed_liquidity - placed.init_removed_liquidity)
        }),
{
}

/// An order is filled by what swaps consume on its side beyond what stood before
/// it when it was placed: the liquidity that had been placed by then, less what had
/// been withdrawn of it. Withdrawals since, of orders before it or after it, move
/// the cursor and the beginning of the order alike and fill nothing.
pub proof fn lemma_fill_by_consumption(order: LimitOrder, side: LiquidityBoundary)
    ensures
        ({
            let ahead = order.init_lower_bound - order.init_removed_liquidity;
            let passed = side.spec_consumed() - ahead;
            order.spec_filled(side) == if passed <= 0 {
                0
            } else if passed < order.order_size {
                passed
            } else {
                order.order_size as int
            }
        }),
{
}

/// How much of an order is filled depends on its side only through what swaps
/// have consumed there, and never goes down as that goes up: an order that is
/// filled stays filled.
pub proof fn lemma_fill_is_monotone(order: LimitOrder, before: LiquidityBoundary, after: LiquidityBoundary)
    requires
        before.spec_consumed() <= after.spec_consumed(),
    ensures
        order.spec_filled(before) <= order.spec_filled(after),
        before.spec_consumed() == after.spec_consumed() ==> order.spec_filled(before)
            == order.spec_filled(after),
        order.spec_filled(before) == order.order_size ==> order.spec_filled(after)
            == order.order_size,
{
}

/// Placing an order and closing one leave what swaps have consumed as it was, on
/// both sides of the tick.
pub proof fn lemma_orders_consume_nothing(order: LimitOrder, details: TickDetails, buy: bool)
    requires
        details.wf(),
    ensures
        order.spec_can_open(details) ==> order.spec_opening_update(details).1.spec_side(
            buy,
        ).spec_consumed() == details.spec_side(buy).spec_consumed(),
        order.spec_can_close(details) ==> order.spec_closing_update(details).1.spec_side(
            buy,
        ).spec_consumed() == details.spec_side(buy).spec_consumed(),
{
}

/// An order that is placed and closed at once, with no swap in between, comes
/// back whole: it has received nothing and all of its size is unfilled. Its side
/// of the tick has moved on by the size in all three totals, so the liquidity of
/// the tick is what it was. Where the tick was not initialised before, the book is
/// again what it was.
pub proof fn lemma_place_then_close(bitmaps: Bitmaps, ticks: Ticks, order: LimitOrder)
    requires
        spec_book_wf(bitmaps, ticks),
        spec_can_open_order(ticks, order),
    ensures
        ({
            let placed = spec_opened_order(ticks, order);
            let opened = spec_open_order(bitmaps, ticks, order);
            let closed = spec_close_order(opened.0, opened.1, placed);
            let before = spec_details_or_empty(ticks, order.ref_tick);
            let side = before.spec_side(order.buy);
            let after = before.spec_with_side(
                order.buy,
                LiquidityBoundary {
                    upper_bound: (side.upper_bound + order.order_size) as u128,
                    lower_bound: (side.lower_bound + order.order_size) as u128,
                    lifetime_removed_liquidity: (side.lifetime_removed_liquidity
                        + order.order_size) as u128,
                },
            );
            &&& spec_can_close_order(opened.1, placed)
            &&& spec_close_order_result(opened.1, placed) == (0u128, order.order_size)
            &&& after.spec_side(order.buy).spec_liquidity_within() == side.spec_liquidity_within()
            &&& closed.1 == if after.spec_is_cleared() {
                ticks.remove(order.ref_tick)
            } else {
                ticks.insert(order.ref_tick, after)
            }
            &&& !ticks.contains_key(order.ref_tick) ==> closed == (bitmaps, ticks)
        }),
{
    let tick = order.ref_tick;
    let placed = spec_opened_order(ticks, order);
    let opened = spec_open_order(bitmaps, ticks, order);
    let before = spec_details_or_empty(ticks, tick);
    let side = before.spec_side(order.buy);
    let price = spec_tick_to_price(tick as int);
    lemma_tick_to_price(tick as int);
    if ticks.contains_key(tick) {
        assert(before.wf());
    }
    lemma_equivalent_zero(price, order.buy);
    assert(opened.1.contains_key(tick));
    let placed_details = opened.1[tick];
    assert(placed.spec_filled(placed_details.spec_side(order.buy)) == 0);
    let closed = spec_close_order(opened.0, opened.1, placed);
    let closed_details = placed.spec_closing_update(placed_details).1;
    if closed_details.spec_is_cleared() {
        assert(closed.1 == ticks.remove(tick));
    } else {
        assert(closed.1 == ticks.insert(tick, closed_details));
    }
    if !ticks.contains_key(tick) {
        assert(ticks.remove(tick) == ticks);
        let integral = spec_integral(tick as int) as u64;
        let position = spec_decimal(tick as int);
        let word = if bitmaps.contains_key(integral) {
            bitmaps[integral]
        } else {
            0
        };
        lemma_flip_twice(word, position);
        if bitmaps.contains_key(integral) {
            if word == 0 {
                assert(ticks.contains_key(spec_tick_zero(integral as int) as u64));
            }
            assert(closed.0 == bitmaps);
        } else {
            if spec_tick_zero(integral as int) <= u64::MAX && ticks.contains_key(
                spec_tick_zero(integral as int) as u64,
            ) {
                assert(bitmaps.contains_key(
                    spec_integral(spec_tick_zero(integral as int)) as u64,
                ));
            }
            assert(closed.0 == bitmaps);
        }
    }
}

/// What it takes to place an order: the book and the order.
pub struct OpenOrderParams<'a> {
    /// The bitmaps of the percents in use.
    pub integrals_bitmaps: &'a mut MB,
    /// The details of the initialised ticks.
    pub ticks_details: &'a mut TD,
    /// The order to place.
    pub order: &'a mut LimitOrder,
}

impl<'a> OpenOrderParams<'a> {
    /// Whether the order can be placed.
    pub fn can_open(&self) -> (b: bool)
        ensures
            b == spec_can_open_order(old(self.ticks_details)@, *old(self.order)),
    {
        let tick: Tick = self.order.ref_tick;
        if tick == 0 || tick % _ONE_BASIS_POINT != 0 {
            return false;
        }
        match self.ticks_details.get(&tick) {
            Some(details) => {
                let upper: u128 = if self.order.buy {
                    details.liq_bounds_token1.upper_bound
                } else {
                    details.liq_bounds_token0.upper_bound
                };
                self.order.order_size <= u128::MAX - upper
            },
            None => true,
        }
    }

    /// Places the order at its tick: takes its snapshot, adds its size to its side
    /// of the tick, and initialises the tick where it was not.
    pub fn open_order(&mut self)
        requires
            spec_book_wf(old(self).integrals_bitmaps@, old(self).ticks_details@),
            spec_can_open_order(old(self).ticks_details@, *old(self).order),
        ensures
            *final(self).order == spec_opened_order(old(self).ticks_details@, *old(self).order),
            (final(self).integrals_bitmaps@, final(self).ticks_details@) == spec_open_order(
                old(self).integrals_bitmaps@,
                old(self).ticks_details@,
                *old(self).order,
            ),
            spec_book_wf(final(self).integrals_bitmaps@, final(self).ticks_details@),
            spec_book_live(old(self).ticks_details@) && old(self).order.order_size > 0
                ==> spec_book_live(final(self).ticks_details@),
            *final(final(self).integrals_bitmaps) == *final(old(self).integrals_bitmaps),
            *final(final(self).ticks_details) == *final(old(self).ticks_details),
            *final(final(self).order) == *final(old(self).order),
    {
        let tick: Tick = self.order.ref_tick;
        let mut tick_details: TickDetails = match self.ticks_details.get(&tick) {
            Some(details) => *details,
            None => TickDetails::default(),
        };
        self.order._opening_update(&mut tick_details);
        _insert_tick(self.integrals_bitmaps, self.ticks_details, tick, tick_details);
    }
}

/// What it takes to close an order: the order and the book.
pub struct CloseOrderParams<'a> {
    /// The order to close.
    pub order: &'a LimitOrder,
    /// The bitmaps of the percents in use.
    pub multipliers_bitmaps: &'a mut MB,
    /// The details of the initialised ticks.
    pub ticks_details: &'a mut TD,
}

impl<'a> CloseOrderParams<'a> {
    /// Whether the order can be closed.
    pub fn can_close(&self) -> (b: bool)
        ensures
            b == spec_can_close_order(old(self.ticks_details)@, *self.order),
    {
        match self.ticks_details.get(&self.order.ref_tick) {
            Some(details) => self.order.can_close(details),
            None => _checked_equivalent(
                self.order.order_size,
                _tick_to_price(self.order.ref_tick),
                self.order.buy,
            ).is_some(),
        }
    }

    /// Closes the order: returns what its filled part has bought and how much of
    /// it stayed unfilled, withdraws the unfilled part from its tick, and clears
    /// the tick where no liquidity is left on it.
    pub fn close_order(&mut self) -> (r: (Amount, Amount))
        requires
            spec_book_wf(old(self).multipliers_bitmaps@, old(self).ticks_details@),
            spec_can_close_order(old(self).ticks_details@, *old(self).order),
        ensures
            r == spec_close_order_result(old(self).ticks_details@, *old(self).order),
            !old(self).ticks_details@.contains_key(old(self).order.ref_tick) ==> r == (
                old(self).order.spec_full_amount_out() as u128,
                0u128,
            ),
            (final(self).multipliers_bitmaps@, final(self).ticks_details@) == spec_close_order(
                old(self).multipliers_bitmaps@,
                old(self).ticks_details@,
                *old(self).order,
            ),
            spec_book_wf(final(self).multipliers_bitmaps@, final(self).ticks_details@),
            spec_book_live(old(self).ticks_details@) ==> spec_book_live(
                final(self).ticks_details@,
            ),
            final(self).order == old(self).order,
            *final(final(self).multipliers_bitmaps) == *final(old(self).multipliers_bitmaps),
            *final(final(self).ticks_details) == *final(old(self).ticks_details),
    {
        let tick: Tick = self.order.ref_tick;
        let found: Option<TickDetails> = match self.ticks_details.get(&tick) {
            Some(details) => Some(*details),
            None => None,
        };
        match found {
            Some(details) => {
                let mut tick_details: TickDetails = details;
                let (amount0, amount1) = self.order._closing_update(&mut tick_details);
                if tick_details.liq_bounds_token0._liquidity_within() == 0
                    && tick_details.liq_bounds_token1._liquidity_within() == 0 {
                    _remove_tick(self.multipliers_bitmaps, self.ticks_details, tick);
                } else {
                    proof {
                        lemma_update_tick_keeps_book(
                            self.multipliers_bitmaps@,
                            self.ticks_details@,
                            tick,
                            tick_details,
                        );
                    }
                    self.ticks_details.insert(tick, tick_details);
                }
                return (amount0, amount1);
            },
            None => {
                let tick_price = _tick_to_price(tick);
                return (_equivalent(self.order.order_size, tick_price, self.order.buy), 0);
            },
        }
    }
}

/// A limit order: `order_size` of quote for a buy, of base for a sell, placed at
/// `ref_tick`. The two `init` fields are set by placing the order; they hold what
/// had been placed on its side of the tick before it, and what had been withdrawn
/// from that side by then.
#[derive(Clone, Copy, Debug, PartialEq, Eq, Structural)]
pub struct LimitOrder {
    /// Whether the order buys.
    pub buy: bool,
    /// The size of the order.
    pub order_size: Amount,
    /// What had been withdrawn from the side of the tick when the order was placed.
    pub init_removed_liquidity: Amount,
    /// What had been placed on the side of the tick before the order.
    pub init_lower_bound: Amount,
    /// The tick of the order.
    pub ref_tick: Tick,
}

impl Default for LimitOrder {
    fn default() -> (r: Self)
        ensures
            r == (LimitOrder {
                buy: false,
                order_size: 0,
                init_removed_liquidity: 0,
                init_lower_bound: 0,
                ref_tick: 0,
            }),
    {
        LimitOrder {
            buy: false,
            order_size: 0,
            init_removed_liquidity: 0,
            init_lower_bound: 0,
            ref_tick: 0,
        }
    }
}

impl LimitOrder {
    /// An order that is not placed yet.
    pub fn new(order_size: Amount, ref_tick: Tick, buy: bool) -> (r: Self)
        ensures
            r == (LimitOrder {
                order_size,
                ref_tick,
                buy,
                init_lower_bound: 0,
                init_removed_liquidity: 0,
            }),
    {
        return LimitOrder {
            order_size,
            ref_tick,
            buy,
            init_lower_bound: 0,
            init_removed_liquidity: 0,
        };
    }

    /// Where the order begins on the fill cursor of its side: what was placed
    /// before it, moved on by what was withdrawn since it was placed.
    pub open spec fn spec_order_lower(self, side: LiquidityBoundary) -> int {
        self.init_lower_bound + (side.lifetime_removed_liquidity - self.init_removed_liquidity)
    }

    /// How much of the order swaps have filled: nothing while the cursor has not
    /// passed the order's beginning, all of it once the cursor has reached its end,
    /// and between the two the part that the cursor has passed.
    pub open spec fn spec_filled(self, side: LiquidityBoundary) -> int {
        let order_lower = self.spec_order_lower(side);
        if side.lower_bound <= order_lower {
            0
        } else if side.lower_bound < order_lower + self.order_size {
            side.lower_bound - order_lower
        } else {
            self.order_size as int
        }
    }

    /// How much of the order is still unfilled.
    pub open spec fn spec_remaining(self, side: LiquidityBoundary) -> int {
        self.order_size - self.spec_filled(side)
    }

    /// What the filled part of the order has bought, at the price of its tick.
    pub open spec fn spec_amount_out(self, side: LiquidityBoundary) -> int {
        spec_equivalent(self.spec_filled(side), spec_tick_to_price(self.ref_tick as int), self.buy)
    }

    /// What the whole order buys once it is filled, at the price of its tick.
    pub open spec fn spec_full_amount_out(self) -> int {
        spec_equivalent(self.order_size as int, spec_tick_to_price(self.ref_tick as int), self.buy)
    }

    /// Whether the order can be closed against these details of its tick.
    pub fn can_close(&self, details: &TickDetails) -> (b: bool)
        ensures
            b == self.spec_can_close(*details),
    {
        let side: LiquidityBoundary = if self.buy {
            details.liq_bounds_token1
        } else {
            details.liq_bounds_token0
        };
        if self.ref_tick == 0 || side.lower_bound > side.upper_bound
            || side.lifetime_removed_liquidity > side.lower_bound
            || side.lifetime_removed_liquidity < self.init_removed_liquidity {
            return false;
        }
        let shift: u128 = side.lifetime_removed_liquidity - self.init_removed_liquidity;
        let filled: u128 = if shift > u128::MAX - self.init_lower_bound {
            0
        } else {
            let order_lower: u128 = self.init_lower_bound + shift;
            if side.lower_bound <= order_lower {
                0
            } else if side.lower_bound - order_lower < self.order_size {
                side.lower_bound - order_lower
            } else {
                self.order_size
            }
        };
        if self.order_size - filled > side.upper_bound - side.lower_bound {
            return false;
        }
        _checked_equivalent(filled, _tick_to_price(self.ref_tick), self.buy).is_some()
    }
}

impl Order for LimitOrder {
    /// The order names a tick with a price, and its size still fits on its side.
    open spec fn spec_can_open(&self, details: TickDetails) -> bool {
        details.spec_side(self.buy).upper_bound + self.order_size <= u128::MAX
    }

    open spec fn spec_opening_update(&self, details: TickDetails) -> (Self, TickDetails) {
        let side = details.spec_side(self.buy);
        (
            LimitOrder {
                init_lower_bound: side.upper_bound,
                init_removed_liquidity: side.lifetime_removed_liquidity,
                ..*self
            },
            details.spec_with_side(
                self.buy,
                LiquidityBoundary {
                    upper_bound: (side.upper_bound + self.order_size) as u128,
                    ..side
                },
            ),
        )
    }

    /// The tick has a price; its side is well formed, and its counters have not gone
    /// back behind the order's snapshot; the unfilled part of the order is liquidity that is still
    /// there; and what the filled part has bought fits in an amount.
    open spec fn spec_can_close(&self, details: TickDetails) -> bool {
        let side = details.spec_side(self.buy);
        &&& self.ref_tick > 0
        &&& side.wf()
        &&& self.init_removed_liquidity <= side.lifetime_removed_liquidity
        &&& self.spec_remaining(side) <= side.spec_liquidity_within()
        &&& self.spec_amount_out(side) <= u128::MAX
    }

    open spec fn spec_closing_update(&self, details: TickDetails) -> ((Amount, Amount), TickDetails) {
        let side = details.spec_side(self.buy);
        let remaining = self.spec_remaining(side);
        (
            (self.spec_amount_out(side) as u128, remaining as u128),
            details.spec_with_side(
                self.buy,
                LiquidityBoundary {
                    lower_bound: (side.lower_bound + remaining) as u128,
                    lifetime_removed_liquidity: (side.lifetime_removed_liquidity + remaining) as u128,
                    ..side
                },
            ),
        )
    }

    fn _opening_update(&mut self, tick_details: &mut TickDetails) {
        let init_liq_bounds = if self.buy {
            tick_details.liq_bounds_token1
        } else {
            tick_details.liq_bounds_token0
        };
        self.init_lower_bound = init_liq_bounds.upper_bound;
        self.init_removed_liquidity = init_liq_bounds.lifetime_removed_liquidity;
        tick_details._add_liquidity(self.buy, self.order_size);
    }

    fn _closing_update(&self, tick_details: &mut TickDetails) -> (r: (Amount, Amount)) {
        let tick_price = _tick_to_price(self.ref_tick);
        let side: LiquidityBoundary = if self.buy {
            tick_details.liq_bounds_token1
        } else {
            tick_details.liq_bounds_token0
        };
        let tick_lower_bound: u128 = side.lower_bound;
        let shift: u128 = side.lifetime_removed_liquidity - self.init_removed_liquidity;
        let filled: u128 = if shift > u128::MAX - self.init_lower_bound {
            0
        } else {
            let order_lower_bound: u128 = self.init_lower_bound + shift;
            if tick_lower_bound <= order_lower_bound {
                0
            } else if tick_lower_bound - order_lower_bound < self.order_size {
                tick_lower_bound - order_lower_bound
            } else {
                self.order_size
            }
        };
        let amount_remaining: u128 = self.order_size - filled;
        let amount_out: u128 = _equivalent(filled, tick_price, self.buy);
        tick_details._remove_liquidity(self.buy, amount_remaining);
        return (amount_out, amount_remaining);
    }
}

} // verus!
