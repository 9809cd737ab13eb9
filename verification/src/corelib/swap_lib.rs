use vstd::prelude::*;
use std::collections::HashMap;
use crate::types::{LiquidityBoundary, TickDetails};
use super::bitmap_lib::{
    _checked_next_initialised_tick,
    lemma_first_set_from,
    lemma_last_set_from,
    spec_next_initialised_tick,
};
use super::book_lib::{
    _remove_tick,
    lemma_remove_tick_keeps_book,
    lemma_update_tick_keeps_book,
    spec_book_live,
    spec_book_wf,
    spec_remove_tick,
    Bitmaps,
    Ticks,
};
use super::price_lib::{
    _checked_equivalent,
    _equivalent,
    lemma_equivalent_round_trip,
    spec_equivalent,
};
use super::tick_lib::{
    _checked_next_default_tick,
    _exceeded_stopping_tick,
    _int_and_dec,
    _tick_to_price,
    lemma_tick_to_price,
    spec_decimal,
    spec_exceeded_stopping_tick,
    spec_integral,
    spec_next_default_tick,
    spec_tick_to_price,
};

verus! {

broadcast use vstd::std_specs::hash::group_hash_axioms;

pub type Tick = u64;

pub type Amount = u128;

pub type MB = HashMap<u64, u128>;

pub type TD = HashMap<u64, TickDetails>;

/// The liquidity of a tick that a swap in the given direction can consume: base
/// liquidity for a buy, quote liquidity for a sell.
pub open spec fn spec_swap_liquidity(details: TickDetails, buy: bool) -> int {
    details.spec_side(!buy).spec_liquidity_within()
}

/// What the liquidity of a tick costs a swap in the given direction, in the asset
/// that the swap pays with.
pub open spec fn spec_liquidity_value(details: TickDetails, tick: u64, buy: bool) -> int {
    spec_equivalent(spec_swap_liquidity(details, buy), spec_tick_to_price(tick as int), !buy)
}

/// What a swap with `remaining` left to pay receives at a tick: all the liquidity
/// of the tick where it can pay for it, and else what `remaining` buys.
pub open spec fn spec_value_out(details: TickDetails, tick: u64, remaining: Amount, buy: bool) -> int {
    if spec_liquidity_value(details, tick, buy) <= remaining {
        spec_swap_liquidity(details, buy)
    } else {
        spec_equivalent(remaining as int, spec_tick_to_price(tick as int), buy)
    }
}

/// What the swap pays at the tick.
pub open spec fn spec_consumed(details: TickDetails, tick: u64, remaining: Amount, buy: bool) -> int {
    if spec_liquidity_value(details, tick, buy) <= remaining {
        spec_liquidity_value(details, tick, buy)
    } else {
        remaining as int
    }
}

/// The details of the tick after the swap: the fill cursor of the consumed side
/// has moved on by what the swap received.
pub open spec fn spec_details_after(details: TickDetails, tick: u64, remaining: Amount, buy: bool) -> TickDetails {
    let side = details.spec_side(!buy);
    details.spec_with_side(
        !buy,
        LiquidityBoundary {
            lower_bound: (side.lower_bound + spec_value_out(details, tick, remaining, buy)) as u128,
            ..side
        },
    )
}

/// Where the liquidity of a tick costs more than a swap has left, what the swap
/// has left buys less than that liquidity.
pub proof fn lemma_partial_fill_fits(liquidity: int, remaining: int, price: int, buy: bool)
    requires
        liquidity >= 0,
        remaining >= 0,
        price > 0,
        spec_equivalent(liquidity, price, !buy) > remaining,
    ensures
        0 <= spec_equivalent(remaining, price, buy) <= liquidity,
{
    let scale: int = 10_000_000;
    if buy {
        assert(0 <= (remaining * scale) / price <= liquidity) by (nonlinear_arith)
            requires
                liquidity >= 0,
                remaining >= 0,
                price > 0,
                scale == 10_000_000,
                (liquidity * price) / scale > remaining,
        ;
    } else {
        assert(0 <= (remaining * price) / scale <= liquidity) by (nonlinear_arith)
            requires
                liquidity >= 0,
                remaining >= 0,
                price > 0,
                scale == 10_000_000,
                (liquidity * scale) / price > remaining,
        ;
    }
}

/// A step at a well-formed tick with a price conserves value. What the swap
/// receives is no more than the liquidity that was there, and what it pays no more
/// than it had left. One of the two amounts is the exact equivalent of the other
/// at the price of the tick, and converting either never exceeds the other: the
/// two differ by the rounding of one division.
pub proof fn lemma_swap_conservation(details: TickDetails, tick: u64, remaining: Amount, buy: bool)
    requires
        details.wf(),
        tick > 0,
    ensures
        ({
            let price = spec_tick_to_price(tick as int);
            let received = spec_value_out(details, tick, remaining, buy);
            let paid = spec_consumed(details, tick, remaining, buy);
            &&& 0 <= received <= spec_swap_liquidity(details, buy)
            &&& 0 <= paid <= remaining
            &&& paid == spec_equivalent(received, price, !buy) || received == spec_equivalent(
                paid,
                price,
                buy,
            )
            &&& spec_equivalent(received, price, !buy) <= paid
            &&& spec_equivalent(paid, price, buy) <= received
            &&& spec_details_after(details, tick, remaining, buy).wf()
        }),
{
    let price = spec_tick_to_price(tick as int);
    let liquidity = spec_swap_liquidity(details, buy);
    lemma_tick_to_price(tick as int);
    lemma_equivalent_round_trip(liquidity, price, !buy);
    lemma_equivalent_round_trip(remaining as int, price, buy);
    if spec_liquidity_value(details, tick, buy) > remaining {
        lemma_partial_fill_fits(liquidity, remaining as int, price, buy);
    }
}

/// The tick at which a step is taken and what the swap still has to pay there.
pub struct SwapTickConstants {
    pub tick: Tick,
    pub order_size: Amount,
}

/// A swap as it stands between two ticks.
pub ghost struct SwapState {
    /// The bitmaps of the book.
    pub bitmaps: Bitmaps,
    /// The ticks of the book.
    pub ticks: Ticks,
    /// What the swap has received so far.
    pub amount_out: Amount,
    /// What the swap still has to pay.
    pub amount_remaining: Amount,
    /// The last tick at which the swap received anything.
    pub resulting_tick: Tick,
    /// The ticks that the swap has cleared, in the order in which it met them.
    pub crossed_ticks: Seq<Tick>,
}

/// Whether the swap halts before `tick`: the liquidity of the tick, added to what
/// the swap has received, would leave the range of an amount.
pub open spec fn spec_swap_halts(state: SwapState, tick: Tick, buy: bool) -> bool {
    state.ticks.contains_key(tick) && state.amount_out + spec_swap_liquidity(state.ticks[tick], buy)
        > u128::MAX
}

/// The swap after its step at `tick`. A tick that is not initialised changes
/// nothing. At an initialised tick the swap pays and receives as
/// `spec_value_out` says. Where it receives nothing, only what it has left
/// changes. Where it receives something, that is added to its output, the tick
/// becomes its resulting tick, and the tick is either updated or, where no
/// liquidity is left on either side of it, cleared and noted as crossed.
pub open spec fn spec_swap_at_tick(state: SwapState, tick: Tick, buy: bool) -> SwapState {
    if !state.ticks.contains_key(tick) {
        state
    } else {
        let details = state.ticks[tick];
        let value_out = spec_value_out(details, tick, state.amount_remaining, buy);
        let remaining = (state.amount_remaining - spec_consumed(
            details,
            tick,
            state.amount_remaining,
            buy,
        )) as u128;
        let after = spec_details_after(details, tick, state.amount_remaining, buy);
        if value_out == 0 {
            SwapState { amount_remaining: remaining, ..state }
        } else if after.spec_is_cleared() {
            SwapState {
                bitmaps: spec_remove_tick(state.bitmaps, state.ticks, tick).0,
                ticks: spec_remove_tick(state.bitmaps, state.ticks, tick).1,
                amount_out: (state.amount_out + value_out) as u128,
                amount_remaining: remaining,
                resulting_tick: tick,
                crossed_ticks: state.crossed_ticks.push(tick),
            }
        } else {
            SwapState {
                ticks: state.ticks.insert(tick, after),
                amount_out: (state.amount_out + value_out) as u128,
                amount_remaining: remaining,
                resulting_tick: tick,
                ..state
            }
        }
    }
}

/// The tick after `tick` on the walk of a swap through `bitmaps`: the next
/// initialised tick of its percent in the direction of the swap, or the default
/// jump out of a percent that has no bitmap.
pub open spec fn spec_next_tick(bitmaps: Bitmaps, tick: Tick, buy: bool) -> int {
    let integral = spec_integral(tick as int);
    if bitmaps.contains_key(integral as u64) {
        spec_next_initialised_tick(bitmaps[integral as u64], integral, spec_decimal(tick as int), buy)
    } else {
        spec_next_default_tick(integral, buy)
    }
}

/// The next tick of a walk lies strictly further in its direction.
pub proof fn lemma_next_tick_advances(bitmaps: Bitmaps, tick: Tick, buy: bool)
    ensures
        buy ==> spec_next_tick(bitmaps, tick, buy) > tick,
        !buy ==> spec_next_tick(bitmaps, tick, buy) < tick,
{
    let integral = spec_integral(tick as int);
    if bitmaps.contains_key(integral as u64) {
        lemma_first_set_from(bitmaps[integral as u64], spec_decimal(tick as int) + 1);
        lemma_last_set_from(bitmaps[integral as u64], spec_decimal(tick as int) - 1);
    }
}

/// The walk of a swap from `tick` on. In a percent without a bitmap nothing
/// happens. Else the swap halts where its output would overflow, takes its step,
/// and ends where it received something and has nothing left to pay. It then
/// goes on to the next tick unless that lies past `stopping_tick`.
pub open spec fn spec_swap_loop(state: SwapState, tick: Tick, stopping_tick: Tick, buy: bool) -> SwapState
    decreases
            (if buy {
                stopping_tick - tick
            } else {
                tick - stopping_tick
            }),
{
    let has_bitmap = state.bitmaps.contains_key(spec_integral(tick as int) as u64);
    if has_bitmap && spec_swap_halts(state, tick, buy) {
        state
    } else {
        let after = if has_bitmap {
            spec_swap_at_tick(state, tick, buy)
        } else {
            state
        };
        let next = spec_next_tick(state.bitmaps, tick, buy);
        if after.amount_out > state.amount_out && after.amount_remaining == 0 {
            after
        } else if spec_exceeded_stopping_tick(next, stopping_tick as int, buy) {
            after
        } else {
            proof {
                lemma_next_tick_advances(state.bitmaps, tick, buy);
            }
            spec_swap_loop(after, next as u64, stopping_tick, buy)
        }
    }
}

/// A swap of `order_size` over a book, from `init_tick` to `stopping_tick`.
pub open spec fn spec_swap(
    bitmaps: Bitmaps,
    ticks: Ticks,
    order_size: Amount,
    buy: bool,
    init_tick: Tick,
    stopping_tick: Tick,
) -> SwapState {
    spec_swap_loop(
        SwapState {
            bitmaps,
            ticks,
            amount_out: 0,
            amount_remaining: order_size,
            resulting_tick: init_tick,
            crossed_ticks: Seq::empty(),
        },
        init_tick,
        stopping_tick,
        buy,
    )
}

/// Whether `ticks` run strictly in the direction of a swap: upwards for a buy,
/// downwards for a sell.
pub open spec fn spec_strictly_ordered(ticks: Seq<Tick>, buy: bool) -> bool {
    forall|i: int, j: int|
        0 <= i < j < ticks.len() ==> if buy {
            ticks[i] < ticks[j]
        } else {
            ticks[i] > ticks[j]
        }
}

/// Whether every one of `ticks` lies strictly before `tick` on the way of a swap.
pub open spec fn spec_all_before(ticks: Seq<Tick>, tick: int, buy: bool) -> bool {
    forall|i: int|
        0 <= i < ticks.len() ==> if buy {
            ticks[i] < tick
        } else {
            ticks[i] > tick
        }
}

/// What a swap leaves behind, seen from where it stood before: the book is still
/// well formed and holds no tick that it did not hold; the swap has no more left
/// to pay and no less received; the ticks it had crossed are still the first of
/// its crossed ticks, and every tick it crossed since was initialised and is no
/// longer; where it received nothing since, it changed nothing; and where every
/// tick held liquidity, every tick that is left still does.
pub open spec fn spec_swap_progress(before: SwapState, after: SwapState) -> bool {
    &&& spec_book_wf(after.bitmaps, after.ticks)
    &&& forall|tick: Tick| #[trigger]
        after.ticks.contains_key(tick) ==> before.ticks.contains_key(tick)
    &&& after.amount_remaining <= before.amount_remaining
    &&& after.amount_out >= before.amount_out
    &&& before.crossed_ticks.len() <= after.crossed_ticks.len()
    &&& forall|i: int|
        0 <= i < before.crossed_ticks.len() ==> after.crossed_ticks[i] == before.crossed_ticks[i]
    &&& forall|i: int|
        before.crossed_ticks.len() <= i < after.crossed_ticks.len() ==> before.ticks.contains_key(
            #[trigger] after.crossed_ticks[i],
        ) && !after.ticks.contains_key(after.crossed_ticks[i])
    &&& after.amount_out == before.amount_out ==> after.bitmaps == before.bitmaps && after.ticks
        == before.ticks && after.resulting_tick == before.resulting_tick && after.crossed_ticks
        == before.crossed_ticks
    &&& spec_book_live(before.ticks) ==> spec_book_live(after.ticks)
}

/// One step of a swap at a tick of a well-formed book makes progress, and crosses
/// no tick but the one it stands on.
pub proof fn lemma_swap_at_tick_progress(state: SwapState, tick: Tick, buy: bool)
    requires
        spec_book_wf(state.bitmaps, state.ticks),
        !spec_swap_halts(state, tick, buy),
    ensures
        spec_swap_progress(state, spec_swap_at_tick(state, tick, buy)),
        spec_swap_at_tick(state, tick, buy).crossed_ticks == state.crossed_ticks
            || spec_swap_at_tick(state, tick, buy).crossed_ticks == state.crossed_ticks.push(tick),
{
    let after = spec_swap_at_tick(state, tick, buy);
    if state.ticks.contains_key(tick) {
        let details = state.ticks[tick];
        lemma_swap_conservation(details, tick, state.amount_remaining, buy);
        let updated = spec_details_after(details, tick, state.amount_remaining, buy);
        lemma_update_tick_keeps_book(state.bitmaps, state.ticks, tick, updated);
        lemma_remove_tick_keeps_book(state.bitmaps, state.ticks, tick);
        assert forall|other: Tick| #[trigger] after.ticks.contains_key(other) implies state.ticks.contains_key(
            other,
        ) by {}
        if after.crossed_ticks != state.crossed_ticks {
            assert(after.crossed_ticks == state.crossed_ticks.push(tick));
            assert forall|i: int|
                state.crossed_ticks.len() <= i < after.crossed_ticks.len() implies state.ticks.contains_key(
                #[trigger] after.crossed_ticks[i],
            ) && !after.ticks.contains_key(after.crossed_ticks[i]) by {
                assert(after.crossed_ticks[i] == tick);
            }
        }
    }
}

/// Progress of a swap adds up.
pub proof fn lemma_swap_progress_transitive(first: SwapState, second: SwapState, third: SwapState)
    requires
        spec_swap_progress(first, second),
        spec_swap_progress(second, third),
    ensures
        spec_swap_progress(first, third),
{
    assert forall|tick: Tick| #[trigger] third.ticks.contains_key(tick) implies first.ticks.contains_key(
        tick,
    ) by {
        assert(second.ticks.contains_key(tick));
    }
    assert forall|i: int|
        first.crossed_ticks.len() <= i < third.crossed_ticks.len() implies first.ticks.contains_key(
        #[trigger] third.crossed_ticks[i],
    ) && !third.ticks.contains_key(third.crossed_ticks[i]) by {
        let crossed = third.crossed_ticks[i];
        if i < second.crossed_ticks.len() {
            assert(second.crossed_ticks[i] == crossed);
            assert(!second.ticks.contains_key(crossed));
            if third.ticks.contains_key(crossed) {
                assert(second.ticks.contains_key(crossed));
            }
        } else {
            assert(second.ticks.contains_key(crossed));
        }
    }
    if third.amount_out == first.amount_out {
        assert(second.amount_out == first.amount_out);
    }
}

/// The walk of a swap over a well-formed book makes progress, and the ticks that
/// it crosses run strictly in its direction.
pub proof fn lemma_swap_loop(state: SwapState, tick: Tick, stopping_tick: Tick, buy: bool)
    requires
        spec_book_wf(state.bitmaps, state.ticks),
        spec_strictly_ordered(state.crossed_ticks, buy),
        spec_all_before(state.crossed_ticks, tick as int, buy),
    ensures
        spec_swap_progress(state, spec_swap_loop(state, tick, stopping_tick, buy)),
        spec_strictly_ordered(spec_swap_loop(state, tick, stopping_tick, buy).crossed_ticks, buy),
    decreases
            (if buy {
                stopping_tick - tick
            } else {
                tick - stopping_tick
            }),
{
    let has_bitmap = state.bitmaps.contains_key(spec_integral(tick as int) as u64);
    if has_bitmap && spec_swap_halts(state, tick, buy) {
    } else {
        let after = if has_bitmap {
            spec_swap_at_tick(state, tick, buy)
        } else {
            state
        };
        if has_bitmap {
            lemma_swap_at_tick_progress(state, tick, buy);
        }
        let next = spec_next_tick(state.bitmaps, tick, buy);
        lemma_next_tick_advances(state.bitmaps, tick, buy);
        assert(spec_strictly_ordered(after.crossed_ticks, buy));
        if after.amount_out > state.amount_out && after.amount_remaining == 0 {
        } else if spec_exceeded_stopping_tick(next, stopping_tick as int, buy) {
        } else {
            assert(spec_all_before(after.crossed_ticks, next, buy));
            lemma_swap_loop(after, next as u64, stopping_tick, buy);
            lemma_swap_progress_transitive(
                state,
                after,
                spec_swap_loop(after, next as u64, stopping_tick, buy),
            );
        }
    }
}

/// A swap over a well-formed book leaves the book well formed, takes no tick into
/// it, pays no more than its size, crosses ticks strictly in its direction, clears
/// every tick that it crosses, and changes nothing where it receives nothing: its
/// resulting tick is then the tick it started from.
pub proof fn lemma_swap(
    bitmaps: Bitmaps,
    ticks: Ticks,
    order_size: Amount,
    buy: bool,
    init_tick: Tick,
    stopping_tick: Tick,
)
    requires
        spec_book_wf(bitmaps, ticks),
    ensures
        ({
            let swapped = spec_swap(bitmaps, ticks, order_size, buy, init_tick, stopping_tick);
            &&& spec_book_wf(swapped.bitmaps, swapped.ticks)
            &&& forall|tick: Tick| #[trigger]
                swapped.ticks.contains_key(tick) ==> ticks.contains_key(tick)
            &&& swapped.amount_remaining <= order_size
            &&& spec_strictly_ordered(swapped.crossed_ticks, buy)
            &&& forall|i: int|
                0 <= i < swapped.crossed_ticks.len() ==> ticks.contains_key(
                    #[trigger] swapped.crossed_ticks[i],
                ) && !swapped.ticks.contains_key(swapped.crossed_ticks[i])
            &&& swapped.amount_out == 0 ==> swapped.bitmaps == bitmaps && swapped.ticks == ticks
                && swapped.resulting_tick == init_tick && swapped.crossed_ticks == Seq::<
                Tick,
            >::empty()
            &&& spec_book_live(ticks) ==> spec_book_live(swapped.ticks)
        }),
{
    let state = SwapState {
        bitmaps,
        ticks,
        amount_out: 0,
        amount_remaining: order_size,
        resulting_tick: init_tick,
        crossed_ticks: Seq::empty(),
    };
    lemma_swap_loop(state, init_tick, stopping_tick, buy);
}

/// A walk through a book without bitmaps passes every percent by and changes
/// nothing.
pub proof fn lemma_swap_loop_without_bitmaps(state: SwapState, tick: Tick, stopping_tick: Tick, buy: bool)
    requires
        forall|integral: u64| !state.bitmaps.contains_key(integral),
    ensures
        spec_swap_loop(state, tick, stopping_tick, buy) == state,
    decreases
            (if buy {
                stopping_tick - tick
            } else {
                tick - stopping_tick
            }),
{
    let next = spec_next_tick(state.bitmaps, tick, buy);
    lemma_next_tick_advances(state.bitmaps, tick, buy);
    if !spec_exceeded_stopping_tick(next, stopping_tick as int, buy) {
        lemma_swap_loop_without_bitmaps(state, next as u64, stopping_tick, buy);
    }
}

/// A swap that starts at its stopping tick takes at most the step at that tick.
pub proof fn lemma_swap_at_stop(bitmaps: Bitmaps, ticks: Ticks, order_size: Amount, buy: bool, init_tick: Tick)
    ensures
        ({
            let state = SwapState {
                bitmaps,
                ticks,
                amount_out: 0,
                amount_remaining: order_size,
                resulting_tick: init_tick,
                crossed_ticks: Seq::empty(),
            };
            spec_swap(bitmaps, ticks, order_size, buy, init_tick, init_tick) == if bitmaps.contains_key(
                spec_integral(init_tick as int) as u64,
            ) && !spec_swap_halts(state, init_tick, buy) {
                spec_swap_at_tick(state, init_tick, buy)
            } else {
                state
            }
        }),
{
    lemma_next_tick_advances(bitmaps, init_tick, buy);
}

/// A step of a swap consumes on the side that it swaps against and leaves the
/// other side alone: on neither side does what swaps have consumed go down.
pub proof fn lemma_swap_step_consumes(details: TickDetails, tick: u64, remaining: Amount, buy: bool)
    requires
        details.wf(),
        tick > 0,
    ensures
        ({
            let after = spec_details_after(details, tick, remaining, buy);
            &&& after.spec_side(!buy).spec_consumed() == details.spec_side(!buy).spec_consumed()
                + spec_value_out(details, tick, remaining, buy)
            &&& after.spec_side(buy) == details.spec_side(buy)
        }),
{
    lemma_swap_conservation(details, tick, remaining, buy);
}

/// A swap that starts at its stopping tick in a percent without a bitmap does
/// nothing: it receives nothing, keeps its whole size, stays at its tick and
/// crosses none.
pub proof fn lemma_swap_at_stop_without_bitmap(
    bitmaps: Bitmaps,
    ticks: Ticks,
    order_size: Amount,
    buy: bool,
    init_tick: Tick,
)
    requires
        !bitmaps.contains_key(spec_integral(init_tick as int) as u64),
    ensures
        spec_swap(bitmaps, ticks, order_size, buy, init_tick, init_tick) == (SwapState {
            bitmaps,
            ticks,
            amount_out: 0,
            amount_remaining: order_size,
            resulting_tick: init_tick,
            crossed_ticks: Seq::empty(),
        }),
{
    lemma_next_tick_advances(bitmaps, init_tick, buy);
}

/// Takes the step of a swap at one tick of `ticks_details`.
fn _swap_at_tick(ticks_details: &mut TD, tick: Tick, order_size: Amount, buy: bool) -> (r: (
    Amount,
    Amount,
    bool,
))
    requires
        tick > 0,
        old(ticks_details)@.contains_key(tick) ==> old(ticks_details)@[tick].wf(),
    ensures
        !old(ticks_details)@.contains_key(tick) ==> r == (0u128, order_size, false)
            && final(ticks_details)@ == old(ticks_details)@,
        old(ticks_details)@.contains_key(tick) ==> ({
            let details = old(ticks_details)@[tick];
            let after = spec_details_after(details, tick, order_size, buy);
            &&& r.0 == spec_value_out(details, tick, order_size, buy)
            &&& r.1 == order_size - spec_consumed(details, tick, order_size, buy)
            &&& r.2 == after.spec_is_cleared()
            &&& after.wf()
            &&& final(ticks_details)@ == old(ticks_details)@.insert(tick, after)
        }),
{
    let tick_price = _tick_to_price(tick);
    let found: Option<TickDetails> = match ticks_details.get(&tick) {
        Some(details) => Some(*details),
        None => None,
    };
    let mut tick_details: TickDetails = match found {
        Some(details) => details,
        None => {
            return (0, order_size, false);
        },
    };
    proof {
        lemma_swap_conservation(tick_details, tick, order_size, buy);
    }
    let init_tick_liq: u128 = if buy {
        tick_details.liq_bounds_token0._liquidity_within()
    } else {
        tick_details.liq_bounds_token1._liquidity_within()
    };
    // The value of all the liquidity of the tick, in the asset that the swap pays with.
    let init_liq_equivalent: Option<u128> = _checked_equivalent(init_tick_liq, tick_price, !buy);
    let affordable: Option<u128> = match init_liq_equivalent {
        Some(value) => if value <= order_size {
            Some(value)
        } else {
            None
        },
        None => None,
    };
    let amount_out: u128;
    let amount_remaining: u128;
    match affordable {
        Some(value) => {
            // All the liquidity of the tick is exhausted.
            amount_out = init_tick_liq;
            amount_remaining = order_size - value;
        },
        None => {
            // Liquidity remains.
            amount_out = _equivalent(order_size, tick_price, buy);
            amount_remaining = 0;
        },
    }
    if buy {
        tick_details.liq_bounds_token0._reduce_boundary(amount_out);
    } else {
        tick_details.liq_bounds_token1._reduce_boundary(amount_out);
    }
    let boundary_closed: bool = tick_details.liq_bounds_token0._liquidity_within() == 0
        && tick_details.liq_bounds_token1._liquidity_within() == 0;
    ticks_details.insert(tick, tick_details);
    return (amount_out, amount_remaining, boundary_closed);
}

/// A swap: its direction, where it starts and stops, its size, and the book that
/// it runs over.
pub struct SwapParams<'a> {
    /// Whether the swap buys.
    pub buy: bool,
    /// The tick at which the swap starts.
    pub init_tick: Tick,
    /// The tick past which the swap does not go.
    pub stopping_tick: Tick,
    /// The amount that the swap pays: quote for a buy, base for a sell.
    pub order_size: Amount,
    /// The bitmaps of the percents in use.
    pub integrals_bitmaps: &'a mut MB,
    /// The details of the initialised ticks.
    pub ticks_details: &'a mut TD,
}

impl<'a> SwapParams<'a> {
    /// Runs the swap over the book, tick by tick from `init_tick` to
    /// `stopping_tick`, and returns what it received, what it could not pay, the
    /// last tick at which it received anything and the ticks that it cleared.
    pub fn _swap(&mut self) -> (r: (Amount, Amount, Tick, Vec<Tick>))
        requires
            spec_book_wf(old(self).integrals_bitmaps@, old(self).ticks_details@),
        ensures
            ({
                let swapped = spec_swap(
                    old(self).integrals_bitmaps@,
                    old(self).ticks_details@,
                    old(self).order_size,
                    old(self).buy,
                    old(self).init_tick,
                    old(self).stopping_tick,
                );
                &&& r.0 == swapped.amount_out
                &&& r.1 == swapped.amount_remaining
                &&& r.2 == swapped.resulting_tick
                &&& r.3@ == swapped.crossed_ticks
                &&& final(self).integrals_bitmaps@ == swapped.bitmaps
                &&& final(self).ticks_details@ == swapped.ticks
            }),
            spec_book_wf(final(self).integrals_bitmaps@, final(self).ticks_details@),
            r.1 <= old(self).order_size,
            spec_strictly_ordered(r.3@, old(self).buy),
            forall|i: int|
                0 <= i < r.3@.len() ==> old(self).ticks_details@.contains_key(#[trigger] r.3@[i])
                    && !final(self).ticks_details@.contains_key(r.3@[i]),
            r.0 == 0 ==> r.2 == old(self).init_tick && r.3@.len() == 0,
            r.0 == 0 ==> final(self).integrals_bitmaps@ == old(self).integrals_bitmaps@,
            r.0 == 0 ==> final(self).ticks_details@ == old(self).ticks_details@,
            spec_book_live(old(self).ticks_details@) ==> spec_book_live(
                final(self).ticks_details@,
            ),
            final(self).buy == old(self).buy,
            final(self).init_tick == old(self).init_tick,
            final(self).stopping_tick == old(self).stopping_tick,
            final(self).order_size == old(self).order_size,
            *final(final(self).integrals_bitmaps) == *final(old(self).integrals_bitmaps),
            *final(final(self).ticks_details) == *final(old(self).ticks_details),
    {
        proof {
            lemma_swap(
                self.integrals_bitmaps@,
                self.ticks_details@,
                self.order_size,
                self.buy,
                self.init_tick,
                self.stopping_tick,
            );
        }
        let mut amount_out: u128 = 0;
        let mut amount_remaining: u128 = self.order_size;
        let mut resulting_tick: Tick = self.init_tick;
        let mut crossed_ticks: Vec<Tick> = Vec::new();
        let mut loop_current_tick: Tick = self.init_tick;
        let buy: bool = self.buy;
        let stopping_tick: Tick = self.stopping_tick;
        let ghost swapped = spec_swap(
            self.integrals_bitmaps@,
            self.ticks_details@,
            self.order_size,
            self.buy,
            self.init_tick,
            self.stopping_tick,
        );
        loop
            invariant_except_break
                spec_book_wf(self.integrals_bitmaps@, self.ticks_details@),
                swapped == spec_swap_loop(
                    SwapState {
                        bitmaps: self.integrals_bitmaps@,
                        ticks: self.ticks_details@,
                        amount_out,
                        amount_remaining,
                        resulting_tick,
                        crossed_ticks: crossed_ticks@,
                    },
                    loop_current_tick,
                    stopping_tick,
                    buy,
                ),
            invariant
                self.buy == old(self).buy,
                self.init_tick == old(self).init_tick,
                self.stopping_tick == old(self).stopping_tick,
                self.order_size == old(self).order_size,
                *final(self.integrals_bitmaps) == *final(old(self).integrals_bitmaps),
                *final(self.ticks_details) == *final(old(self).ticks_details),
            ensures
                spec_book_wf(self.integrals_bitmaps@, self.ticks_details@),
                swapped == (SwapState {
                    bitmaps: self.integrals_bitmaps@,
                    ticks: self.ticks_details@,
                    amount_out,
                    amount_remaining,
                    resulting_tick,
                    crossed_ticks: crossed_ticks@,
                }),
            decreases
                    (if buy {
                        stopping_tick - loop_current_tick
                    } else {
                        loop_current_tick - stopping_tick
                    }),
        {
            let ghost state = SwapState {
                bitmaps: self.integrals_bitmaps@,
                ticks: self.ticks_details@,
                amount_out,
                amount_remaining,
                resulting_tick,
                crossed_ticks: crossed_ticks@,
            };
            proof {
                lemma_next_tick_advances(state.bitmaps, loop_current_tick, buy);
            }
            let (integral, bit_position) = _int_and_dec(loop_current_tick);
            let found: Option<u128> = match self.integrals_bitmaps.get(&integral) {
                Some(word) => Some(*word),
                None => None,
            };
            let next: Option<Tick>;
            match found {
                None => {
                    // No tick of this percent is initialised: the walk leaves it.
                    next = _checked_next_default_tick(integral, buy);
                },
                Some(bitmap) => {
                    let liquidity: u128 = match self.ticks_details.get(&loop_current_tick) {
                        Some(details) => if buy {
                            details.liq_bounds_token0._liquidity_within()
                        } else {
                            details.liq_bounds_token1._liquidity_within()
                        },
                        None => 0,
                    };
                    if liquidity > u128::MAX - amount_out {
                        break ;
                    }
                    let ghost stepped = spec_swap_at_tick(state, loop_current_tick, buy);
                    proof {
                        if state.ticks.contains_key(loop_current_tick) {
                            lemma_swap_conservation(
                                state.ticks[loop_current_tick],
                                loop_current_tick,
                                amount_remaining,
                                buy,
                            );
                        }
                    }
                    let tick_params = SwapTickConstants {
                        order_size: amount_remaining,
                        tick: loop_current_tick,
                    };
                    let (value_out, remaining, boundary_closed) = if buy {
                        self._buy_at_tick(tick_params)
                    } else {
                        self._sell_at_tick(tick_params)
                    };
                    amount_remaining = remaining;
                    proof {
                        if state.ticks.contains_key(loop_current_tick) {
                            lemma_update_tick_keeps_book(
                                state.bitmaps,
                                state.ticks,
                                loop_current_tick,
                                spec_details_after(
                                    state.ticks[loop_current_tick],
                                    loop_current_tick,
                                    state.amount_remaining,
                                    buy,
                                ),
                            );
                            assert(self.ticks_details@.remove(loop_current_tick) == state.ticks.remove(
                                loop_current_tick,
                            ));
                            if value_out == 0 {
                                assert(self.ticks_details@ == state.ticks);
                            }
                        }
                    }
                    if value_out > 0 {
                        amount_out += value_out;
                        resulting_tick = loop_current_tick;
                        if boundary_closed {
                            // All the liquidity of the tick is gone: the tick is cleared.
                            _remove_tick(
                                self.integrals_bitmaps,
                                self.ticks_details,
                                loop_current_tick,
                            );
                            crossed_ticks.push(loop_current_tick);
                        }
                        assert(stepped == (SwapState {
                            bitmaps: self.integrals_bitmaps@,
                            ticks: self.ticks_details@,
                            amount_out,
                            amount_remaining,
                            resulting_tick,
                            crossed_ticks: crossed_ticks@,
                        }));
                        if amount_remaining == 0 {
                            break ;
                        }
                    }
                    assert(stepped == (SwapState {
                        bitmaps: self.integrals_bitmaps@,
                        ticks: self.ticks_details@,
                        amount_out,
                        amount_remaining,
                        resulting_tick,
                        crossed_ticks: crossed_ticks@,
                    }));
                    next = _checked_next_initialised_tick(bitmap, integral, bit_position, buy);
                },
            }
            match next {
                Some(next_tick) => {
                    if _exceeded_stopping_tick(next_tick, stopping_tick, buy) {
                        break ;
                    }
                    loop_current_tick = next_tick;
                },
                None => {
                    break ;
                },
            }
        }
        return (amount_out, amount_remaining, resulting_tick, crossed_ticks);
    }

    /// The step of a buying swap at one tick: returns what the swap receives
    /// there, what it still has to pay after it, and whether the tick is left
    /// without liquidity on either side.
    pub fn _buy_at_tick(&mut self, params: SwapTickConstants) -> (r: (Amount, Amount, bool))
        requires
            old(self).ticks_details@.contains_key(params.tick) ==> params.tick > 0 && old(
                self,
            ).ticks_details@[params.tick].wf(),
        ensures
            spec_tick_step(old(self).ticks_details@, final(self).ticks_details@, params, true, r),
            final(self).integrals_bitmaps@ == old(self).integrals_bitmaps@,
            final(self).buy == old(self).buy,
            final(self).init_tick == old(self).init_tick,
            final(self).stopping_tick == old(self).stopping_tick,
            final(self).order_size == old(self).order_size,
            *final(final(self).integrals_bitmaps) == *final(old(self).integrals_bitmaps),
            *final(final(self).ticks_details) == *final(old(self).ticks_details),
    {
        if params.tick == 0 {
            return (0, params.order_size, false);
        }
        _swap_at_tick(self.ticks_details, params.tick, params.order_size, true)
    }

    /// The step of a selling swap at one tick.
    pub fn _sell_at_tick(&mut self, tick_params: SwapTickConstants) -> (r: (Amount, Amount, bool))
        requires
            old(self).ticks_details@.contains_key(tick_params.tick) ==> tick_params.tick > 0 && old(
                self,
            ).ticks_details@[tick_params.tick].wf(),
        ensures
            spec_tick_step(
                old(self).ticks_details@,
                final(self).ticks_details@,
                tick_params,
                false,
                r,
            ),
            final(self).integrals_bitmaps@ == old(self).integrals_bitmaps@,
            final(self).buy == old(self).buy,
            final(self).init_tick == old(self).init_tick,
            final(self).stopping_tick == old(self).stopping_tick,
            final(self).order_size == old(self).order_size,
            *final(final(self).integrals_bitmaps) == *final(old(self).integrals_bitmaps),
            *final(final(self).ticks_details) == *final(old(self).ticks_details),
    {
        if tick_params.tick == 0 {
            return (0, tick_params.order_size, false);
        }
        _swap_at_tick(self.ticks_details, tick_params.tick, tick_params.order_size, false)
    }
}

/// What a step at one tick does to the ticks of the book and what it returns: at
/// a tick that is not initialised nothing, and else what `spec_value_out`,
/// `spec_consumed` and `spec_details_after` say.
pub open spec fn spec_tick_step(
    before: Ticks,
    after: Ticks,
    params: SwapTickConstants,
    buy: bool,
    r: (Amount, Amount, bool),
) -> bool {
    if before.contains_key(params.tick) {
        let details = before[params.tick];
        let updated = spec_details_after(details, params.tick, params.order_size, buy);
        &&& r.0 == spec_value_out(details, params.tick, params.order_size, buy)
        &&& r.1 == params.order_size - spec_consumed(details, params.tick, params.order_size, buy)
        &&& r.2 == updated.spec_is_cleared()
        &&& updated.wf()
        &&& after == before.insert(params.tick, updated)
    } else {
        r == (0u128, params.order_size, false) && after == before
    }
}

} // verus!
