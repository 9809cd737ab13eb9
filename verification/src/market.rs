use vstd::prelude::*;
use std::collections::HashMap;
use crate::corelib::book_lib::{_insert_tick, spec_book_wf, spec_insert_tick, Bitmaps, Ticks};
use crate::corelib::tick_lib::spec_aligned;
use crate::corelib::order_lib::{
    spec_can_close_order,
    spec_can_open_order,
    spec_close_order,
    spec_close_order_result,
    spec_open_order,
    spec_opened_order,
    CloseOrderParams,
    LimitOrder,
    OpenOrderParams,
};
use crate::corelib::swap_lib::{spec_swap, SwapParams, SwapState};
use crate::types::{FundingRateTracker, TickDetails};

verus! {

broadcast use vstd::std_specs::hash::group_hash_axioms;

pub type Amount = u128;

pub type Tick = u64;

/// The state of a market that trading changes: the order book, as the bitmaps of
/// the percents in use and the details of the initialised ticks, and the pools of
/// the long and the short side.
pub struct Market {
    pub(crate) integrals_bitmaps: HashMap<u64, u128>,
    pub(crate) ticks_details: HashMap<Tick, TickDetails>,
    pub(crate) funding_rate_tracker: FundingRateTracker,
}

/// A market as plain values.
pub ghost struct MarketView {
    pub bitmaps: Bitmaps,
    pub ticks: Ticks,
    pub tracker: FundingRateTracker,
}

impl View for Market {
    type V = MarketView;

    open(crate) spec fn view(&self) -> MarketView {
        MarketView {
            bitmaps: self.integrals_bitmaps@,
            ticks: self.ticks_details@,
            tracker: self.funding_rate_tracker,
        }
    }
}

impl MarketView {
    /// The book of the market is well formed.
    pub open spec fn wf(self) -> bool {
        spec_book_wf(self.bitmaps, self.ticks)
    }

    /// The market after a swap.
    pub open spec fn spec_swapped(self, swapped: SwapState) -> MarketView {
        MarketView { bitmaps: swapped.bitmaps, ticks: swapped.ticks, ..self }
    }

    /// A swap over the book of the market.
    pub open spec fn spec_swap(self, order_size: Amount, buy: bool, init_tick: Tick, stopping_tick: Tick) -> SwapState {
        spec_swap(self.bitmaps, self.ticks, order_size, buy, init_tick, stopping_tick)
    }
}

impl Market {
    /// The book of a market is well formed at all times.
    #[verifier::type_invariant]
    pub(crate) open spec fn book_is_well_formed(self) -> bool {
        spec_book_wf(self.integrals_bitmaps@, self.ticks_details@)
    }

    /// A market without orders or positions.
    pub fn new() -> (r: Self)
        ensures
            r@.wf(),
            r@.bitmaps == Map::<u64, u128>::empty(),
            r@.ticks == Map::<u64, TickDetails>::empty(),
            r@.tracker == (FundingRateTracker {
                net_volume_long: 0,
                total_long_shares: 0,
                net_volume_short: 0,
                total_short_shares: 0,
            }),
    {
        Market {
            integrals_bitmaps: HashMap::new(),
            ticks_details: HashMap::new(),
            funding_rate_tracker: FundingRateTracker::default(),
        }
    }

    /// Takes the book out of the market, which is left with an empty one.
    fn take_book(&mut self) -> (book: (HashMap<u64, u128>, HashMap<Tick, TickDetails>))
        ensures
            book.0@ == old(self)@.bitmaps,
            book.1@ == old(self)@.ticks,
            spec_book_wf(book.0@, book.1@),
            final(self)@ == (MarketView {
                bitmaps: Map::empty(),
                ticks: Map::empty(),
                tracker: old(self)@.tracker,
            }),
    {
        proof {
            use_type_invariant(&*self);
        }
        let mut taken = Market {
            integrals_bitmaps: HashMap::new(),
            ticks_details: HashMap::new(),
            funding_rate_tracker: self.funding_rate_tracker,
        };
        std::mem::swap(self, &mut taken);
        (taken.integrals_bitmaps, taken.ticks_details)
    }

    /// Puts a book into the market.
    fn put_book(&mut self, integrals_bitmaps: HashMap<u64, u128>, ticks_details: HashMap<Tick, TickDetails>)
        requires
            spec_book_wf(integrals_bitmaps@, ticks_details@),
        ensures
            final(self)@ == (MarketView {
                bitmaps: integrals_bitmaps@,
                ticks: ticks_details@,
                tracker: old(self)@.tracker,
            }),
    {
        *self = Market {
            integrals_bitmaps,
            ticks_details,
            funding_rate_tracker: self.funding_rate_tracker,
        };
    }

    /// Takes a tick with its details into the book, as when a stored book is
    /// read back: the tick has to have a price and to name a basis point, must
    /// not be there yet, and its details have to be well formed. Says whether it
    /// was taken.
    pub fn restore_tick(&mut self, tick: Tick, details: TickDetails) -> (restored: bool)
        ensures
            restored == (tick > 0 && spec_aligned(tick as int) && details.wf() && !old(
                self,
            )@.ticks.contains_key(tick)),
            restored ==> (final(self)@.bitmaps, final(self)@.ticks) == spec_insert_tick(
                old(self)@.bitmaps,
                old(self)@.ticks,
                tick,
                details,
            ),
            !restored ==> final(self)@ == old(self)@,
            final(self)@.tracker == old(self)@.tracker,
            final(self)@.wf(),
    {
        proof {
            use_type_invariant(&*self);
        }
        let sides_fit: bool = details.liq_bounds_token0.lifetime_removed_liquidity
            <= details.liq_bounds_token0.lower_bound && details.liq_bounds_token0.lower_bound
            <= details.liq_bounds_token0.upper_bound
            && details.liq_bounds_token1.lifetime_removed_liquidity
            <= details.liq_bounds_token1.lower_bound && details.liq_bounds_token1.lower_bound
            <= details.liq_bounds_token1.upper_bound;
        if tick == 0 || tick % crate::corelib::constants::_ONE_BASIS_POINT != 0 || !sides_fit
            || self.ticks_details.contains_key(&tick) {
            return false;
        }
        let (mut integrals_bitmaps, mut ticks_details) = self.take_book();
        _insert_tick(&mut integrals_bitmaps, &mut ticks_details, tick, details);
        self.put_book(integrals_bitmaps, ticks_details);
        true
    }

    /// The pools of the two sides.
    pub fn tracker(&self) -> (r: FundingRateTracker)
        ensures
            r == self@.tracker,
    {
        self.funding_rate_tracker
    }

    /// Sets the pools of the two sides.
    pub fn set_tracker(&mut self, tracker: FundingRateTracker)
        ensures
            final(self)@ == (MarketView { tracker, ..old(self)@ }),
    {
        proof {
            use_type_invariant(&*self);
        }
        self.funding_rate_tracker = tracker;
    }

    /// The bitmaps of the percents in use.
    pub fn integrals_bitmaps(&self) -> (r: &HashMap<u64, u128>)
        ensures
            r@ == self@.bitmaps,
    {
        &self.integrals_bitmaps
    }

    /// The details of the initialised ticks.
    pub fn ticks_details(&self) -> (r: &HashMap<Tick, TickDetails>)
        ensures
            r@ == self@.ticks,
    {
        &self.ticks_details
    }

    /// A copy of the market, to go back to.
    pub fn snapshot(&self) -> (r: Self)
        ensures
            r@ == self@,
    {
        proof {
            use_type_invariant(self);
        }
        Market {
            integrals_bitmaps: self.integrals_bitmaps.clone(),
            ticks_details: self.ticks_details.clone(),
            funding_rate_tracker: self.funding_rate_tracker,
        }
    }

    /// The details of a tick, where it is initialised.
    pub fn _get_tick_details(&self, tick: Tick) -> (r: Option<TickDetails>)
        ensures
            match r {
                Some(details) => self@.ticks.contains_key(tick) && details == self@.ticks[tick],
                None => !self@.ticks.contains_key(tick),
            },
    {
        match self.ticks_details.get(&tick) {
            Some(details) => Some(*details),
            None => None,
        }
    }

    /// Whether `order` can be placed.
    pub fn _can_open_order(&self, order: &LimitOrder) -> (b: bool)
        ensures
            b == spec_can_open_order(self@.ticks, *order),
    {
        let tick: Tick = order.ref_tick;
        if tick == 0 || tick % crate::corelib::constants::_ONE_BASIS_POINT != 0 {
            return false;
        }
        match self.ticks_details.get(&tick) {
            Some(details) => {
                let upper: u128 = if order.buy {
                    details.liq_bounds_token1.upper_bound
                } else {
                    details.liq_bounds_token0.upper_bound
                };
                order.order_size <= u128::MAX - upper
            },
            None => true,
        }
    }

    /// Places `order` in the book.
    pub fn _open_order(&mut self, order: &mut LimitOrder)
        requires
            spec_can_open_order(old(self)@.ticks, *old(order)),
        ensures
            *final(order) == spec_opened_order(old(self)@.ticks, *old(order)),
            (final(self)@.bitmaps, final(self)@.ticks) == spec_open_order(
                old(self)@.bitmaps,
                old(self)@.ticks,
                *old(order),
            ),
            final(self)@.tracker == old(self)@.tracker,
            final(self)@.wf(),
    {
        proof {
            use_type_invariant(&*self);
        }
        let (mut integrals_bitmaps, mut ticks_details) = self.take_book();
        let mut open_order_params = OpenOrderParams {
            order,
            integrals_bitmaps: &mut integrals_bitmaps,
            ticks_details: &mut ticks_details,
        };
        open_order_params.open_order();
        self.put_book(integrals_bitmaps, ticks_details);
    }

    /// Whether `order` can be closed.
    pub fn _can_close_order(&self, order: &LimitOrder) -> (b: bool)
        ensures
            b == spec_can_close_order(self@.ticks, *order),
    {
        match self.ticks_details.get(&order.ref_tick) {
            Some(details) => order.can_close(details),
            None => crate::corelib::price_lib::_checked_equivalent(
                order.order_size,
                crate::corelib::tick_lib::_tick_to_price(order.ref_tick),
                order.buy,
            ).is_some(),
        }
    }

    /// Closes `order` against the book and returns what it has received and what
    /// of it stayed unfilled.
    pub fn _close_order(&mut self, order: &LimitOrder) -> (r: (Amount, Amount))
        requires
            spec_can_close_order(old(self)@.ticks, *order),
        ensures
            r == spec_close_order_result(old(self)@.ticks, *order),
            (final(self)@.bitmaps, final(self)@.ticks) == spec_close_order(
                old(self)@.bitmaps,
                old(self)@.ticks,
                *order,
            ),
            final(self)@.tracker == old(self)@.tracker,
            final(self)@.wf(),
    {
        proof {
            use_type_invariant(&*self);
        }
        let (mut integrals_bitmaps, mut ticks_details) = self.take_book();
        let mut close_order_params = CloseOrderParams {
            order,
            multipliers_bitmaps: &mut integrals_bitmaps,
            ticks_details: &mut ticks_details,
        };
        let closed = close_order_params.close_order();
        self.put_book(integrals_bitmaps, ticks_details);
        closed
    }

    /// Runs a swap over the book.
    pub fn _swap(&mut self, order_size: Amount, buy: bool, init_tick: Tick, stopping_tick: Tick) -> (r: (
        Amount,
        Amount,
        Tick,
        Vec<Tick>,
    ))
        ensures
            ({
                let swapped = old(self)@.spec_swap(order_size, buy, init_tick, stopping_tick);
                &&& r.0 == swapped.amount_out
                &&& r.1 == swapped.amount_remaining
                &&& r.2 == swapped.resulting_tick
                &&& r.3@ == swapped.crossed_ticks
                &&& final(self)@ == old(self)@.spec_swapped(swapped)
                &&& r.1 <= order_size
                &&& r.0 == 0 ==> final(self)@ == old(self)@ && r.2 == init_tick
            }),
            final(self)@.wf(),
    {
        proof {
            use_type_invariant(&*self);
        }
        let (mut integrals_bitmaps, mut ticks_details) = self.take_book();
        let mut swap_params = SwapParams {
            buy,
            init_tick,
            stopping_tick,
            order_size,
            integrals_bitmaps: &mut integrals_bitmaps,
            ticks_details: &mut ticks_details,
        };
        let swapped = swap_params._swap();
        self.put_book(integrals_bitmaps, ticks_details);
        swapped
    }
}

} // verus!
