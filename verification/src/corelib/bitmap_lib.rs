use vstd::prelude::*;
use super::bit_lib::{_BITMAP_LIMIT, _least_sigbit_position, _most_sigbit_position};
use super::tick_lib::{
    _checked_next_default_tick,
    _checked_tick_at,
    spec_next_default_tick,
    spec_tick_at,
    spec_tick_zero,
};

verus! {

/// The mask of a decimal in a bitmap word: decimal 0 is the highest of the hundred
/// bits, decimal 99 the lowest.
pub open spec fn spec_mask(decimal: int) -> u128 {
    1u128 << ((99 - decimal) as u128)
}

/// Whether the bit of `decimal` is set in `bitmap`.
pub open spec fn spec_bit_set(bitmap: u128, decimal: int) -> bool {
    bitmap & spec_mask(decimal) != 0
}

/// The lowest set decimal of `bitmap` from `from` up to 99, if there is one.
pub open spec fn spec_first_set_from(bitmap: u128, from: int) -> Option<int>
    decreases 100 - from,
{
    if from > 99 {
        None
    } else if spec_bit_set(bitmap, from) {
        Some(from)
    } else {
        spec_first_set_from(bitmap, from + 1)
    }
}

/// The highest set decimal of `bitmap` from `from` down to 0, if there is one.
pub open spec fn spec_last_set_from(bitmap: u128, from: int) -> Option<int>
    decreases from + 1,
{
    if from < 0 {
        None
    } else if spec_bit_set(bitmap, from) {
        Some(from)
    } else {
        spec_last_set_from(bitmap, from - 1)
    }
}

/// The word with the bit of `bit_position` turned over; decimal 0 has no bit of
/// its own and leaves the word as it is.
pub open spec fn spec_flip_bit(bitmap: u128, bit_position: int) -> u128 {
    if bit_position == 0 {
        bitmap
    } else {
        bitmap ^ spec_mask(bit_position)
    }
}

/// The tick at which a walk through the percent `integral` goes on from
/// `bit_position`: for a buy the nearest initialised tick above, else the next
/// whole percent; for a sell the nearest initialised tick below, else the whole
/// percent itself, and from there the last basis point of the percent below.
pub open spec fn spec_next_initialised_tick(
    bitmap: u128,
    integral: int,
    bit_position: int,
    buy: bool,
) -> int {
    if buy {
        match spec_first_set_from(bitmap, bit_position + 1) {
            Some(decimal) => spec_tick_at(integral, decimal),
            None => spec_next_default_tick(integral, true),
        }
    } else {
        match spec_last_set_from(bitmap, bit_position - 1) {
            Some(decimal) => spec_tick_at(integral, decimal),
            None => if bit_position == 0 {
                spec_next_default_tick(integral, false)
            } else {
                spec_tick_zero(integral)
            },
        }
    }
}

/// What `spec_first_set_from` finds is set, not below `from`, and the lowest such
/// decimal; where it finds nothing, nothing is set from `from` up to 99.
pub proof fn lemma_first_set_from(bitmap: u128, from: int)
    requires
        from >= 0,
    ensures
        match spec_first_set_from(bitmap, from) {
            Some(decimal) => from <= decimal <= 99 && spec_bit_set(bitmap, decimal) && forall|
                other: int,
            |
                from <= other < decimal ==> !spec_bit_set(bitmap, other),
            None => forall|other: int| from <= other <= 99 ==> !spec_bit_set(bitmap, other),
        },
    decreases 100 - from,
{
    if from <= 99 && !spec_bit_set(bitmap, from) {
        lemma_first_set_from(bitmap, from + 1);
    }
}

/// What `spec_last_set_from` finds is set, not above `from`, and the highest such
/// decimal; where it finds nothing, nothing is set from `from` down to 0.
pub proof fn lemma_last_set_from(bitmap: u128, from: int)
    requires
        from <= 99,
    ensures
        match spec_last_set_from(bitmap, from) {
            Some(decimal) => 0 <= decimal <= from && spec_bit_set(bitmap, decimal) && forall|
                other: int,
            |
                decimal < other <= from ==> !spec_bit_set(bitmap, other),
            None => forall|other: int| 0 <= other <= from ==> !spec_bit_set(bitmap, other),
        },
    decreases from + 1,
{
    if from >= 0 && !spec_bit_set(bitmap, from) {
        lemma_last_set_from(bitmap, from - 1);
    }
}

/// The next initialised tick is the nearest one: where a decimal of the percent
/// is set strictly past `bit_position` in the direction of the walk, the tick of
/// the nearest such decimal, the lowest one above for a buy and the highest one
/// below for a sell. Where none is set there, a buy goes on to the next whole
/// percent; a sell lands on the whole percent itself and, from there, on the last
/// basis point of the percent below.
pub proof fn lemma_next_initialised_tick_is_nearest(bitmap: u128, integral: int, bit_position: int, buy: bool)
    requires
        0 <= bit_position <= 99,
    ensures
        ({
            let next = spec_next_initialised_tick(bitmap, integral, bit_position, buy);
            let past = |decimal: int|
                if buy {
                    bit_position < decimal <= 99
                } else {
                    0 <= decimal < bit_position
                };
            &&& (forall|decimal: int| past(decimal) ==> !spec_bit_set(bitmap, decimal)) ==> next == (
            if buy {
                spec_next_default_tick(integral, true)
            } else if bit_position == 0 {
                spec_next_default_tick(integral, false)
            } else {
                spec_tick_zero(integral)
            })
            &&& (exists|decimal: int| past(decimal) && spec_bit_set(bitmap, decimal)) ==> exists|
                nearest: int,
            |
                {
                    &&& past(nearest)
                    &&& spec_bit_set(bitmap, nearest)
                    &&& next == spec_tick_at(integral, nearest)
                    &&& forall|other: int|
                        past(other) && spec_bit_set(bitmap, other) ==> if buy {
                            nearest <= other
                        } else {
                            nearest >= other
                        }
                }
        }),
{
    lemma_first_set_from(bitmap, bit_position + 1);
    lemma_last_set_from(bitmap, bit_position - 1);
    let past = |decimal: int|
        if buy {
            bit_position < decimal <= 99
        } else {
            0 <= decimal < bit_position
        };
    let found = if buy {
        spec_first_set_from(bitmap, bit_position + 1)
    } else {
        spec_last_set_from(bitmap, bit_position - 1)
    };
    match found {
        Some(nearest) => {
            assert(past(nearest) && spec_bit_set(bitmap, nearest));
            assert forall|other: int| past(other) && spec_bit_set(bitmap, other) implies if buy {
                nearest <= other
            } else {
                nearest >= other
            } by {}
        },
        None => {
            assert forall|decimal: int| past(decimal) implies !spec_bit_set(bitmap, decimal) by {}
        },
    }
}

/// The next initialised tick lies within the percent of the walk or one step
/// outside it: it is a tick wherever the next whole percent is one and, for a
/// sell from the whole percent zero, there is a percent below.
pub proof fn lemma_next_initialised_tick_fits(bitmap: u128, integral: int, bit_position: int, buy: bool)
    requires
        0 <= integral,
        0 <= bit_position <= 99,
    ensures
        spec_next_initialised_tick(bitmap, integral, bit_position, buy) <= spec_tick_zero(integral + 1),
        buy || bit_position != 0 || integral >= 1 ==> 0 <= spec_next_initialised_tick(
            bitmap,
            integral,
            bit_position,
            buy,
        ),
{
    lemma_first_set_from(bitmap, bit_position + 1);
    lemma_last_set_from(bitmap, bit_position - 1);
}

/// A set decimal with nothing set between `from` and it is what
/// `spec_first_set_from` finds.
proof fn lemma_first_set_is(bitmap: u128, from: int, decimal: int)
    requires
        0 <= from <= decimal <= 99,
        spec_bit_set(bitmap, decimal),
        forall|other: int| from <= other < decimal ==> !spec_bit_set(bitmap, other),
    ensures
        spec_first_set_from(bitmap, from) == Some(decimal),
    decreases decimal - from,
{
    if from < decimal {
        lemma_first_set_is(bitmap, from + 1, decimal);
    }
}

/// Nothing set from `from` up to 99 is what `spec_first_set_from` calls nothing.
proof fn lemma_first_set_none(bitmap: u128, from: int)
    requires
        0 <= from,
        forall|other: int| from <= other <= 99 ==> !spec_bit_set(bitmap, other),
    ensures
        spec_first_set_from(bitmap, from) is None,
    decreases 100 - from,
{
    if from <= 99 {
        lemma_first_set_none(bitmap, from + 1);
    }
}

/// A set decimal with nothing set between it and `from` is what
/// `spec_last_set_from` finds.
proof fn lemma_last_set_is(bitmap: u128, from: int, decimal: int)
    requires
        0 <= decimal <= from <= 99,
        spec_bit_set(bitmap, decimal),
        forall|other: int| decimal < other <= from ==> !spec_bit_set(bitmap, other),
    ensures
        spec_last_set_from(bitmap, from) == Some(decimal),
    decreases from - decimal,
{
    if decimal < from {
        lemma_last_set_is(bitmap, from - 1, decimal);
    }
}

/// Nothing set from `from` down to 0 is what `spec_last_set_from` calls nothing.
proof fn lemma_last_set_none(bitmap: u128, from: int)
    requires
        from <= 99,
        forall|other: int| 0 <= other <= from ==> !spec_bit_set(bitmap, other),
    ensures
        spec_last_set_from(bitmap, from) is None,
    decreases from + 1,
{
    if from >= 0 {
        lemma_last_set_none(bitmap, from - 1);
    }
}

/// Turning a bit over changes that bit and no other of the hundred, and keeps the
/// word within its hundred bits.
pub proof fn lemma_flip_bit(bitmap: u128, bit_position: int, other: int)
    requires
        0 <= bit_position <= 99,
        0 <= other <= 99,
    ensures
        spec_bit_set(spec_flip_bit(bitmap, bit_position), other) == (if other == bit_position
            && bit_position != 0 {
            !spec_bit_set(bitmap, other)
        } else {
            spec_bit_set(bitmap, other)
        }),
        bitmap < _BITMAP_LIMIT ==> spec_flip_bit(bitmap, bit_position) < _BITMAP_LIMIT,
{
    let a: u128 = (99 - bit_position) as u128;
    let b: u128 = (99 - other) as u128;
    if bit_position != 0 {
        if a == b {
            assert(((bitmap ^ (1u128 << a)) & (1u128 << a) != 0) == !(bitmap & (1u128 << a) != 0))
                by (bit_vector)
                requires
                    a < 100,
            ;
        } else {
            assert(((bitmap ^ (1u128 << a)) & (1u128 << b) != 0) == (bitmap & (1u128 << b) != 0))
                by (bit_vector)
                requires
                    a < 100,
                    b < 100,
                    a != b,
            ;
        }
        assert(bitmap < 0x1_0000_0000_0000_0000_0000_0000_0u128 ==> (bitmap ^ (1u128 << a))
            < 0x1_0000_0000_0000_0000_0000_0000_0u128) by (bit_vector)
            requires
                a < 100,
        ;
    }
}

/// Turning a bit over twice gives the word back.
pub proof fn lemma_flip_twice(bitmap: u128, bit_position: int)
    ensures
        spec_flip_bit(spec_flip_bit(bitmap, bit_position), bit_position) == bitmap,
{
    let mask = spec_mask(bit_position);
    assert((bitmap ^ mask) ^ mask == bitmap) by (bit_vector);
}

/// Turns over the bit of `bit_position` in `bitmap`.
pub fn _flip_bit(bitmap: u128, bit_position: u64) -> (r: u128)
    requires
        bit_position <= 99,
    ensures
        r == spec_flip_bit(bitmap, bit_position as int),
        bit_position == 0 ==> r == bitmap,
{
    if bit_position == 0 {
        return bitmap;
    }
    let mask: u128 = 1u128 << (99 - bit_position);
    assert(mask == spec_mask(bit_position as int)) by {
        let s64: u64 = (99 - bit_position) as u64;
        let s128: u128 = (99 - bit_position) as u128;
        assert(1u128 << s64 == 1u128 << s128) by (bit_vector)
            requires
                s64 == s128,
        ;
    }
    return bitmap ^ mask;
}

/// The tick at which a walk goes on from `bit_position` of the percent `integral`.
pub fn _next_initialised_tick(bitmap: u128, integral: u64, bit_position: u64, buy: bool) -> (r: u64)
    requires
        bit_position <= 99,
        bitmap < _BITMAP_LIMIT,
        0 <= spec_next_initialised_tick(bitmap, integral as int, bit_position as int, buy)
            <= u64::MAX,
    ensures
        r == spec_next_initialised_tick(bitmap, integral as int, bit_position as int, buy),
{
    _checked_next_initialised_tick(bitmap, integral, bit_position, buy).unwrap()
}

/// The same tick where it is one: `None` where the walk would leave the range of
/// ticks, above the highest or below zero.
pub fn _checked_next_initialised_tick(bitmap: u128, integral: u64, bit_position: u64, buy: bool) -> (r:
    Option<u64>)
    requires
        bit_position <= 99,
        bitmap < _BITMAP_LIMIT,
    ensures
        match r {
            Some(tick) => tick == spec_next_initialised_tick(
                bitmap,
                integral as int,
                bit_position as int,
                buy,
            ),
            None => !(0 <= spec_next_initialised_tick(
                bitmap,
                integral as int,
                bit_position as int,
                buy,
            ) <= u64::MAX),
        },
{
    let reference: u64 = 99 - bit_position;
    let ghost refer: u128 = reference as u128;
    if buy {
        assert(1u128 << reference == 1u128 << refer && (1u128 << refer) >= 1) by (bit_vector)
            requires
                reference == refer,
                refer < 100,
        ;
        let mask: u128 = ((1u128) << reference) - 1;
        let masked: u128 = bitmap & mask;
        assert(mask == ((1u128 << refer) - 1) as u128 && masked < _BITMAP_LIMIT) by {
            assert(bitmap & (((1u128 << refer) - 1) as u128)
                < 0x1_0000_0000_0000_0000_0000_0000_0u128) by (bit_vector)
                requires
                    refer < 100,
            ;
        }
        if masked == 0 {
            proof {
                assert forall|other: int| bit_position + 1 <= other <= 99 implies !spec_bit_set(
                    bitmap,
                    other,
                ) by {
                    let j: u128 = (99 - other) as u128;
                    assert(bitmap & (1u128 << j) == 0) by (bit_vector)
                        requires
                            bitmap & (((1u128 << refer) - 1) as u128) == 0,
                            j < refer,
                            refer < 100,
                    ;
                }
                lemma_first_set_none(bitmap, bit_position + 1);
            }
            return _checked_next_default_tick(integral, true);
        } else {
            let found: u64 = _most_sigbit_position(masked);
            proof {
                let k: u128 = (99 - found) as u128;
                assert(k < refer && bitmap & (1u128 << k) != 0) by (bit_vector)
                    requires
                        (bitmap & (((1u128 << refer) - 1) as u128)) >> k == 1u128,
                        k < 100,
                        refer < 100,
                ;
                assert forall|other: int| bit_position + 1 <= other < found implies !spec_bit_set(
                    bitmap,
                    other,
                ) by {
                    let j: u128 = (99 - other) as u128;
                    assert(bitmap & (1u128 << j) == 0) by (bit_vector)
                        requires
                            (bitmap & (((1u128 << refer) - 1) as u128)) >> k == 1u128,
                            k < j,
                            j < refer,
                            refer < 100,
                    ;
                }
                lemma_first_set_is(bitmap, bit_position + 1, found as int);
            }
            return _checked_tick_at(integral, found);
        }
    } else {
        let ghost up64: u64 = (reference + 1) as u64;
        let ghost up128: u128 = (refer + 1) as u128;
        assert(1u128 << up64 == 1u128 << up128 && (1u128 << up128) >= 1) by (bit_vector)
            requires
                up64 == up128,
                up128 <= 100,
        ;
        let mask: u128 = !(((1u128) << (reference + 1)) - 1);
        let masked: u128 = mask & bitmap;
        assert(masked == bitmap & !(((1u128 << ((refer + 1) as u128)) - 1) as u128)) by {
            let m: u128 = !(((1u128 << up128) - 1) as u128);
            assert(m & bitmap == bitmap & m) by (bit_vector);
        }
        if masked == 0 {
            proof {
                assert forall|other: int| 0 <= other <= bit_position - 1 implies !spec_bit_set(
                    bitmap,
                    other,
                ) by {
                    let j: u128 = (99 - other) as u128;
                    assert(bitmap & (1u128 << j) == 0) by (bit_vector)
                        requires
                            bitmap & !(((1u128 << ((refer + 1) as u128)) - 1) as u128) == 0,
                            j > refer,
                            j < 100,
                    ;
                }
                lemma_last_set_none(bitmap, bit_position - 1);
            }
            if bit_position == 0 {
                return _checked_next_default_tick(integral, false);
            }
            return _checked_tick_at(integral, 0);
        } else {
            assert(masked & ((_BITMAP_LIMIT - 1) as u128) != 0) by {
                assert(masked & 0xffff_ffff_ffff_ffff_ffff_ffff_fu128 != 0) by (bit_vector)
                    requires
                        masked == bitmap & !(((1u128 << ((refer + 1) as u128)) - 1) as u128),
                        masked != 0,
                        bitmap < 0x1_0000_0000_0000_0000_0000_0000_0u128,
                ;
            }
            let found: u64 = _least_sigbit_position(masked);
            proof {
                let k: u128 = (99 - found) as u128;
                assert(k > refer && bitmap & (1u128 << k) != 0) by (bit_vector)
                    requires
                        masked == bitmap & !(((1u128 << ((refer + 1) as u128)) - 1) as u128),
                        (masked >> k) & 1u128 == 1u128,
                        k < 100,
                        refer < 100,
                ;
                assert forall|other: int| found < other <= bit_position - 1 implies !spec_bit_set(
                    bitmap,
                    other,
                ) by {
                    let j: u128 = (99 - other) as u128;
                    assert(bitmap & (1u128 << j) == 0) by (bit_vector)
                        requires
                            masked == bitmap & !(((1u128 << ((refer + 1) as u128)) - 1) as u128),
                            masked & (((1u128 << k) - 1) as u128) == 0u128,
                            refer < j,
                            j < k,
                            k < 100,
                    ;
                }
                lemma_last_set_is(bitmap, bit_position - 1, found as int);
            }
            return _checked_tick_at(integral, found);
        }
    }
}

} // verus!
