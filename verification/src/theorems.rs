//! What holds of every marketplace, whatever calls it has seen.
//!
//! The theorems speak of [`crate::market_state::MarketState`] and of the
//! spec functions that the methods of the executable marketplace are proved
//! against, so each of them holds of every run of the executable marketplace
//! too.

pub mod calls;
pub mod escrow;
pub mod indices;
pub mod trade;
pub mod well_formed;
