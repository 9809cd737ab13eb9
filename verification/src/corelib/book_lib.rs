use vstd::prelude::*;
use std::collections::HashMap;
use crate::types::TickDetails;
use super::bit_lib::_BITMAP_LIMIT;
use super::bitmap_lib::{_flip_bit, lemma_flip_bit, spec_bit_set, spec_flip_bit, spec_mask};
use super::tick_lib::{
    _int_and_dec,
    _tick_zero,
    lemma_int_and_dec,
    lemma_tick_at,
    spec_aligned,
    spec_decimal,
    spec_integral,
    spec_tick_at,
    spec_tick_zero,
};

verus! {

broadcast use vstd::std_specs::hash::group_hash_axioms;

pub type Tick = u64;

/// The bitmaps of the percents in use, by percent.
pub type Bitmaps = Map<u64, u128>;

/// The details of the initialised ticks, by tick.
pub type Ticks = Map<u64, TickDetails>;

/// Whether the bit of `decimal` in the bitmap of `integral` says what the tick
/// store says: the bit is set exactly where the tick of that percent and basis
/// point has details.
pub open spec fn spec_bit_agrees(bitmaps: Bitmaps, ticks: Ticks, integral: u64, decimal: int) -> bool {
    spec_bit_set(bitmaps[integral], decimal) <==> (spec_tick_at(integral as int, decimal)
        <= u64::MAX && ticks.contains_key(spec_tick_at(integral as int, decimal) as u64))
}

/// The invariant of an order book.
///
/// The tick of price zero holds nothing. Every initialised tick names a basis
/// point exactly, is well formed on both sides, and lies in a percent that has a
/// bitmap. Every bitmap keeps within its hundred bits, and each of its bits from
/// decimal 1 to 99 is set exactly where that tick is initialised; decimal 0 has no
/// bit of its own. No bitmap is kept for a percent that holds no tick: a bitmap
/// without a bit stands for the whole percent alone.
pub open spec fn spec_book_wf(bitmaps: Bitmaps, ticks: Ticks) -> bool {
    &&& !ticks.contains_key(0)
    &&& spec_ticks_fit(bitmaps, ticks)
    &&& spec_bitmaps_fit(bitmaps, ticks)
    &&& spec_bits_agree(bitmaps, ticks)
}

/// Every initialised tick names a basis point exactly, is well formed on both
/// sides, and lies in a percent that has a bitmap.
pub open spec fn spec_ticks_fit(bitmaps: Bitmaps, ticks: Ticks) -> bool {
    forall|tick: u64| #[trigger]
        ticks.contains_key(tick) ==> spec_aligned(tick as int) && ticks[tick].wf()
            && bitmaps.contains_key(spec_integral(tick as int) as u64)
}

/// Every bitmap keeps within its hundred bits, and one without a bit stands for
/// an initialised whole percent.
pub open spec fn spec_bitmaps_fit(bitmaps: Bitmaps, ticks: Ticks) -> bool {
    forall|integral: u64| #[trigger]
        bitmaps.contains_key(integral) ==> bitmaps[integral] < _BITMAP_LIMIT && (bitmaps[integral]
            != 0 || (spec_tick_zero(integral as int) <= u64::MAX && ticks.contains_key(
            spec_tick_zero(integral as int) as u64,
        )))
}

/// Every bit of a decimal from 1 to 99 says what the tick store says.
pub open spec fn spec_bits_agree(bitmaps: Bitmaps, ticks: Ticks) -> bool {
    forall|integral: u64, decimal: int|
        bitmaps.contains_key(integral) && 1 <= decimal <= 99 ==> #[trigger] spec_bit_agrees(
            bitmaps,
            ticks,
            integral,
            decimal,
        )
}

/// Whether every initialised tick holds liquidity on one side at least. A book
/// in which no order of size zero was placed is such a book at all times.
pub open spec fn spec_book_live(ticks: Ticks) -> bool {
    forall|tick: u64| #[trigger] ticks.contains_key(tick) ==> !ticks[tick].spec_is_cleared()
}

/// The book after `tick` was initialised with `details`: the details are stored,
/// and where the tick was not initialised before, its bit is turned on in the
/// bitmap of its percent, which is created for it where there was none.
pub open spec fn spec_insert_tick(bitmaps: Bitmaps, ticks: Ticks, tick: u64, details: TickDetails) -> (
    Bitmaps,
    Ticks,
) {
    let integral = spec_integral(tick as int) as u64;
    let bitmap = if bitmaps.contains_key(integral) {
        bitmaps[integral]
    } else {
        0
    };
    if ticks.contains_key(tick) {
        (bitmaps, ticks.insert(tick, details))
    } else {
        (
            bitmaps.insert(integral, spec_flip_bit(bitmap, spec_decimal(tick as int))),
            ticks.insert(tick, details),
        )
    }
}

/// The book after `tick` was cleared: its details are gone and its bit is turned
/// off. The bitmap of its percent goes with it where no bit is left in it and the
/// whole percent itself is not initialised.
pub open spec fn spec_remove_tick(bitmaps: Bitmaps, ticks: Ticks, tick: u64) -> (Bitmaps, Ticks) {
    let integral = spec_integral(tick as int) as u64;
    let flipped = spec_flip_bit(bitmaps[integral], spec_decimal(tick as int));
    let rest = ticks.remove(tick);
    if flipped == 0 && !rest.contains_key(spec_tick_zero(integral as int) as u64) {
        (bitmaps.remove(integral), rest)
    } else {
        (bitmaps.insert(integral, flipped), rest)
    }
}

/// On every side of every initialised tick of a well-formed book, what was
/// placed covers what swaps have consumed and what was withdrawn: the stored
/// cursor is the sum of the two and never passes the upper bound.
pub proof fn lemma_book_tick_bounds(bitmaps: Bitmaps, ticks: Ticks, tick: u64, buy: bool)
    requires
        spec_book_wf(bitmaps, ticks),
        ticks.contains_key(tick),
    ensures
        ({
            let side = ticks[tick].spec_side(buy);
            &&& side.spec_consumed() >= 0
            &&& side.upper_bound >= side.spec_consumed() + side.lifetime_removed_liquidity
            &&& side.spec_liquidity_within() == side.upper_bound - side.spec_consumed()
                - side.lifetime_removed_liquidity
        }),
{
}

/// In a well-formed book, the bit of a decimal from 1 to 99 is set in the bitmap
/// of a percent exactly where the tick of that percent and decimal is
/// initialised.
pub proof fn lemma_book_bit_iff_tick(bitmaps: Bitmaps, ticks: Ticks, integral: u64, decimal: int)
    requires
        spec_book_wf(bitmaps, ticks),
        bitmaps.contains_key(integral),
        1 <= decimal <= 99,
    ensures
        spec_bit_set(bitmaps[integral], decimal) <==> (spec_tick_at(integral as int, decimal)
            <= u64::MAX && ticks.contains_key(spec_tick_at(integral as int, decimal) as u64)),
{
    assert(spec_bit_agrees(bitmaps, ticks, integral, decimal));
}

/// A word with a bit set is not the empty word.
proof fn lemma_bit_set_not_empty(bitmap: u128, decimal: int)
    requires
        spec_bit_set(bitmap, decimal),
    ensures
        bitmap != 0,
{
    let mask = spec_mask(decimal);
    assert(bitmap & mask != 0 ==> bitmap != 0) by (bit_vector);
}

/// The empty word has no bit set.
proof fn lemma_empty_has_no_bit(decimal: int)
    ensures
        !spec_bit_set(0, decimal),
{
    let mask = spec_mask(decimal);
    assert(0u128 & mask == 0) by (bit_vector);
}

/// Replacing the details of an initialised tick by well-formed ones keeps the
/// book well formed.
pub proof fn lemma_update_tick_keeps_book(bitmaps: Bitmaps, ticks: Ticks, tick: u64, details: TickDetails)
    requires
        spec_book_wf(bitmaps, ticks),
        ticks.contains_key(tick),
        details.wf(),
    ensures
        spec_book_wf(bitmaps, ticks.insert(tick, details)),
{
    let after = ticks.insert(tick, details);
    assert forall|other: u64| #[trigger] after.contains_key(other) implies spec_aligned(
        other as int,
    ) && after[other].wf() && bitmaps.contains_key(spec_integral(other as int) as u64) by {
        assert(ticks.contains_key(other));
    }
    assert forall|integral: u64, decimal: int|
        bitmaps.contains_key(integral) && 1 <= decimal <= 99 implies #[trigger] spec_bit_agrees(
        bitmaps,
        after,
        integral,
        decimal,
    ) by {
        assert(spec_bit_agrees(bitmaps, ticks, integral, decimal));
    }
}

/// The ticks of a book still fit once a new tick is initialised.
proof fn lemma_insert_keeps_ticks(bitmaps: Bitmaps, ticks: Ticks, tick: u64, details: TickDetails)
    requires
        spec_ticks_fit(bitmaps, ticks),
        !ticks.contains_key(tick),
        spec_aligned(tick as int),
        details.wf(),
    ensures
        spec_ticks_fit(
            spec_insert_tick(bitmaps, ticks, tick, details).0,
            spec_insert_tick(bitmaps, ticks, tick, details).1,
        ),
{
    let (bitmaps2, ticks2) = spec_insert_tick(bitmaps, ticks, tick, details);
    assert forall|other: u64| #[trigger] ticks2.contains_key(other) implies spec_aligned(
        other as int,
    ) && ticks2[other].wf() && bitmaps2.contains_key(spec_integral(other as int) as u64) by {
        if other != tick {
            assert(ticks.contains_key(other));
        }
    }
}

/// The bitmaps of a book still fit once a new tick is initialised.
proof fn lemma_insert_keeps_bitmaps(bitmaps: Bitmaps, ticks: Ticks, tick: u64, details: TickDetails)
    requires
        spec_bitmaps_fit(bitmaps, ticks),
        spec_bits_agree(bitmaps, ticks),
        !ticks.contains_key(tick),
        spec_aligned(tick as int),
    ensures
        spec_bitmaps_fit(
            spec_insert_tick(bitmaps, ticks, tick, details).0,
            spec_insert_tick(bitmaps, ticks, tick, details).1,
        ),
{
    let integral = spec_integral(tick as int) as u64;
    let position = spec_decimal(tick as int);
    let before = if bitmaps.contains_key(integral) {
        bitmaps[integral]
    } else {
        0
    };
    let after = spec_flip_bit(before, position);
    let (bitmaps2, ticks2) = spec_insert_tick(bitmaps, ticks, tick, details);
    lemma_int_and_dec(tick as int);
    lemma_flip_bit(before, position, position);
    assert(bitmaps2[integral] == after);
    if position != 0 {
        if bitmaps.contains_key(integral) {
            assert(spec_bit_agrees(bitmaps, ticks, integral, position));
        } else {
            lemma_empty_has_no_bit(position);
        }
        assert(spec_bit_set(after, position));
        lemma_bit_set_not_empty(after, position);
    } else {
        assert(tick as int == spec_tick_zero(integral as int));
        assert(ticks2.contains_key(tick));
    }
    assert forall|percent: u64| #[trigger] bitmaps2.contains_key(percent) implies bitmaps2[percent]
        < _BITMAP_LIMIT && (bitmaps2[percent] != 0 || (spec_tick_zero(percent as int) <= u64::MAX
        && ticks2.contains_key(spec_tick_zero(percent as int) as u64))) by {
        if percent != integral {
            assert(bitmaps.contains_key(percent));
        }
    }
}

/// The bits of a book still agree with its ticks once a new tick is initialised.
proof fn lemma_insert_keeps_bits(bitmaps: Bitmaps, ticks: Ticks, tick: u64, details: TickDetails)
    requires
        spec_ticks_fit(bitmaps, ticks),
        spec_bits_agree(bitmaps, ticks),
        !ticks.contains_key(tick),
        spec_aligned(tick as int),
    ensures
        spec_bits_agree(
            spec_insert_tick(bitmaps, ticks, tick, details).0,
            spec_insert_tick(bitmaps, ticks, tick, details).1,
        ),
{
    let integral = spec_integral(tick as int) as u64;
    let position = spec_decimal(tick as int);
    let before = if bitmaps.contains_key(integral) {
        bitmaps[integral]
    } else {
        0
    };
    let (bitmaps2, ticks2) = spec_insert_tick(bitmaps, ticks, tick, details);
    lemma_int_and_dec(tick as int);
    assert forall|percent: u64, decimal: int|
        bitmaps2.contains_key(percent) && 1 <= decimal <= 99 implies #[trigger] spec_bit_agrees(
        bitmaps2,
        ticks2,
        percent,
        decimal,
    ) by {
        let named = spec_tick_at(percent as int, decimal);
        lemma_tick_at(percent as int, decimal);
        if percent == integral {
            lemma_flip_bit(before, position, decimal);
            if bitmaps.contains_key(integral) {
                assert(spec_bit_agrees(bitmaps, ticks, integral, decimal));
            } else {
                lemma_empty_has_no_bit(decimal);
                if named <= u64::MAX && ticks.contains_key(named as u64) {
                    assert(bitmaps.contains_key(spec_integral(named) as u64));
                }
            }
        } else {
            assert(spec_bit_agrees(bitmaps, ticks, percent, decimal));
        }
    }
}

/// Initialising an aligned tick above zero with well-formed details keeps the
/// book well formed.
pub proof fn lemma_insert_tick_keeps_book(bitmaps: Bitmaps, ticks: Ticks, tick: u64, details: TickDetails)
    requires
        spec_book_wf(bitmaps, ticks),
        tick > 0,
        spec_aligned(tick as int),
        details.wf(),
    ensures
        spec_book_wf(
            spec_insert_tick(bitmaps, ticks, tick, details).0,
            spec_insert_tick(bitmaps, ticks, tick, details).1,
        ),
{
    if ticks.contains_key(tick) {
        lemma_update_tick_keeps_book(bitmaps, ticks, tick, details);
    } else {
        lemma_insert_keeps_ticks(bitmaps, ticks, tick, details);
        lemma_insert_keeps_bitmaps(bitmaps, ticks, tick, details);
        lemma_insert_keeps_bits(bitmaps, ticks, tick, details);
    }
}

/// Clearing an initialised tick keeps the book well formed.
pub proof fn lemma_remove_tick_keeps_book(bitmaps: Bitmaps, ticks: Ticks, tick: u64)
    requires
        spec_book_wf(bitmaps, ticks),
        ticks.contains_key(tick),
    ensures
        spec_book_wf(spec_remove_tick(bitmaps, ticks, tick).0, spec_remove_tick(bitmaps, ticks, tick).1),
{
    let integral = spec_integral(tick as int) as u64;
    let position = spec_decimal(tick as int);
    let before = bitmaps[integral];
    let flipped = spec_flip_bit(before, position);
    let (bitmaps2, ticks2) = spec_remove_tick(bitmaps, ticks, tick);
    lemma_flip_bit(before, position, position);
    assert forall|other: u64| #[trigger] ticks2.contains_key(other) implies spec_aligned(
        other as int,
    ) && ticks2[other].wf() && bitmaps2.contains_key(spec_integral(other as int) as u64) by {
        assert(ticks.contains_key(other));
        if spec_integral(other as int) as u64 == integral && !bitmaps2.contains_key(integral) {
            let decimal = spec_decimal(other as int);
            if decimal >= 1 {
                assert(spec_bit_agrees(bitmaps, ticks, integral, decimal));
                lemma_flip_bit(before, position, decimal);
                lemma_bit_set_not_empty(flipped, decimal);
            }
        }
    }
    assert forall|percent: u64, decimal: int|
        bitmaps2.contains_key(percent) && 1 <= decimal <= 99 implies #[trigger] spec_bit_agrees(
        bitmaps2,
        ticks2,
        percent,
        decimal,
    ) by {
        assert(spec_bit_agrees(bitmaps, ticks, percent, decimal));
        if percent == integral {
            lemma_flip_bit(before, position, decimal);
        }
    }
}

/// Stores `details` for `tick`, and initialises the tick where it was not: its
/// bit is turned on in the bitmap of its percent, which is created where there
/// was none.
pub fn _insert_tick(
    integrals_bitmaps: &mut HashMap<u64, u128>,
    ticks_details: &mut HashMap<Tick, TickDetails>,
    tick: Tick,
    details: TickDetails,
)
    requires
        spec_book_wf(old(integrals_bitmaps)@, old(ticks_details)@),
        tick > 0,
        spec_aligned(tick as int),
        details.wf(),
    ensures
        (final(integrals_bitmaps)@, final(ticks_details)@) == spec_insert_tick(
            old(integrals_bitmaps)@,
            old(ticks_details)@,
            tick,
            details,
        ),
        spec_book_wf(final(integrals_bitmaps)@, final(ticks_details)@),
{
    proof {
        lemma_insert_tick_keeps_book(integrals_bitmaps@, ticks_details@, tick, details);
    }
    if !ticks_details.contains_key(&tick) {
        let (integral, bit_position) = _int_and_dec(tick);
        let bitmap: u128 = match integrals_bitmaps.get(&integral) {
            Some(word) => *word,
            None => 0,
        };
        integrals_bitmaps.insert(integral, _flip_bit(bitmap, bit_position));
    }
    ticks_details.insert(tick, details);
}

/// Clears `tick`: removes its details, turns its bit off and drops the bitmap of
/// its percent where that leaves the percent empty.
pub fn _remove_tick(
    integrals_bitmaps: &mut HashMap<u64, u128>,
    ticks_details: &mut HashMap<Tick, TickDetails>,
    tick: Tick,
)
    requires
        spec_book_wf(old(integrals_bitmaps)@, old(ticks_details)@),
        old(ticks_details)@.contains_key(tick),
    ensures
        (final(integrals_bitmaps)@, final(ticks_details)@) == spec_remove_tick(
            old(integrals_bitmaps)@,
            old(ticks_details)@,
            tick,
        ),
        spec_book_wf(final(integrals_bitmaps)@, final(ticks_details)@),
{
    proof {
        lemma_remove_tick_keeps_book(integrals_bitmaps@, ticks_details@, tick);
    }
    ticks_details.remove(&tick);
    let (integral, bit_position) = _int_and_dec(tick);
    let bitmap: u128 = match integrals_bitmaps.get(&integral) {
        Some(word) => *word,
        None => 0,
    };
    let flipped: u128 = _flip_bit(bitmap, bit_position);
    let tick_zero: Tick = _tick_zero(integral);
    if flipped == 0 && !ticks_details.contains_key(&tick_zero) {
        integrals_bitmaps.remove(&integral);
    } else {
        integrals_bitmaps.insert(integral, flipped);
    }
}

} // verus!
