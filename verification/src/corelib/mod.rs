//! The order book: ticks, bitmaps, limit orders and swaps.

pub mod constants;
pub mod wide_lib;
pub mod calc_lib;
pub mod price_lib;
pub mod tick_lib;
pub mod bit_lib;
pub mod bitmap_lib;
pub mod book_lib;
pub mod order_lib;
pub mod swap_lib;
