use vstd::prelude::*;

verus! {

/// One basis point, in tick units: a hundredth of a percent.
pub const _ONE_BASIS_POINT: u64 = 1_000;

/// One percent, in tick units.
pub const _ONE_PERCENT: u64 = 100_000;

/// The price of the tick that stands for one hundred percent.
pub const _BASE_PRICE: u128 = 10_000_000;

/// The denominator by which prices are scaled.
pub const _PRICE_DECIMAL: u128 = 10_000_000;

/// One hundred percent, in tick units; the denominator of every percentage.
pub const _HUNDRED_PERCENT: u64 = 10_000_000;

/// One hour of the clock, in nanoseconds.
pub const _ONE_HOUR: u64 = 3_600_000_000_000;

/// The slippage allowed to a swap whose caller names no limit: half a percent.
pub const _DEFAULT_SWAP_SLIPPAGE: u64 = 50_000;

} // verus!
