//! Core logic of a price-alert bot: it watches an asset price from a public
//! ticker feed, decides when the price has fallen below a configured
//! threshold, builds the webhook notification for that event, and decides how
//! long the polling loop sleeps between checks.
//!
//! Prices are held as fixed-point amounts in hundredths of the quote currency
//! (cents), so every comparison and every formatting step is exact.

pub mod config;
pub mod digits;
pub mod evaluate;
pub mod feed;
pub mod notify;
pub mod scheduler;
