//! The matching and liquidity engine of a perpetual-futures market.
//!
//! The market keeps a book of limit liquidity on discrete price levels, the
//! ticks. Orders are placed on ticks and closed again; swaps walk the book and
//! consume what they meet; positions are opened and closed on top of both, with
//! their debt, their interest and their share of the funding between the long
//! and the short side.
//!
//! - `corelib` holds the book: tick arithmetic, the bitmaps that index the
//!   initialised ticks, limit orders and swaps.
//! - `types` holds the records of a tick and the pools of the two sides.
//! - `market` holds the book and the pools of one market.
//! - `position` opens, closes and converts positions on a market.
//! - `funding` settles the premium of the market over the spot price.
//! - `operations` decides what a call of a trader comes to: what changes, and
//!   what the vault and the watcher are to be told.
//! - `account` derives the subaccount of a principal.

pub mod corelib;
pub mod types;
pub mod market;
pub mod position;
pub mod funding;
pub mod operations;
pub mod account;
