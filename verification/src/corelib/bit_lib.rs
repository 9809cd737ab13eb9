use vstd::prelude::*;

verus! {

/// `u128::leading_zeros` counts the zero bits above the highest set bit: 128 for
/// zero and for no other number, and otherwise the number shifted right by the
/// bits that are left below that count is exactly one.
pub assume_specification[ u128::leading_zeros ](i: u128) -> (r: u32)
    ensures
        r <= 128,
        r == 128 <==> i == 0,
        i != 0 ==> i >> ((127 - r) as u128) == 1u128,
;

/// `u128::trailing_zeros` counts the zero bits below the lowest set bit: 128 for
/// zero and for no other number, and otherwise the bit at that count is set and
/// every bit below it is clear.
pub assume_specification[ u128::trailing_zeros ](i: u128) -> (r: u32)
    ensures
        r <= 128,
        r == 128 <==> i == 0,
        i != 0 ==> (i >> (r as u128)) & 1u128 == 1u128,
        i != 0 ==> i & (((1u128 << (r as u128)) - 1) as u128) == 0u128,
;

/// The first number that does not fit in the hundred bits of a bitmap.
pub const _BITMAP_LIMIT: u128 = 0x1_0000_0000_0000_0000_0000_0000_0;

/// The decimal of the highest set bit of a bitmap word, where decimal 0 is bit 99
/// and decimal 99 is bit 0. For the empty word it is 100.
pub fn _most_sigbit_position(num: u128) -> (r: u64)
    requires
        num < _BITMAP_LIMIT,
    ensures
        num == 0 <==> r == 100,
        num != 0 ==> r <= 99 && num >> ((99 - r) as u128) == 1u128,
{
    let zeros: u32 = num.leading_zeros();
    assert(zeros >= 28) by {
        if num != 0 {
            let shift: u128 = (127 - zeros) as u128;
            assert(shift < 100) by (bit_vector)
                requires
                    num >> shift == 1u128,
                    num < 0x1_0000_0000_0000_0000_0000_0000_0u128,
                    shift < 128,
            ;
        }
    }
    return (zeros as u64) - 28;
}

/// The decimal of the lowest set bit of a bitmap word that has a bit set among
/// its hundred.
pub fn _least_sigbit_position(num: u128) -> (r: u64)
    requires
        num & ((_BITMAP_LIMIT - 1) as u128) != 0,
    ensures
        r <= 99,
        (num >> ((99 - r) as u128)) & 1u128 == 1u128,
        num & (((1u128 << ((99 - r) as u128)) - 1) as u128) == 0u128,
{
    assert(num != 0) by (bit_vector)
        requires
            num & 0xffff_ffff_ffff_ffff_ffff_ffff_fu128 != 0,
    ;
    let zeros: u32 = num.trailing_zeros();
    let ghost shift: u128 = zeros as u128;
    assert(shift < 100) by (bit_vector)
        requires
            num & 0xffff_ffff_ffff_ffff_ffff_ffff_fu128 != 0,
            num & (((1u128 << shift) - 1) as u128) == 0u128,
            shift < 128,
    ;
    return 99 - (zeros as u64);
}

} // verus!
