//! Verified core of a marketplace for impact NFTs, and of the NGO registry
//! beside it.
//!
//! The crate holds the rules as state machines over plain values: who may
//! list, unlist, update and buy a product, how the price is split between
//! seller and platform, and which transfers and events each step asks its
//! host to carry out. Storage, authorization and the calls into token and
//! NFT contracts belong to the host that embeds the machines.
//!
//! - [`market_state`] is the mathematical model of the marketplace: its
//!   state, its invariant and, as spec functions, each of its steps.
//! - [`impact_buyer`] is the executable marketplace, each method proved
//!   against the model.
//! - [`theorems`] states what follows for every marketplace: identifiers are
//!   never reused, a sale moves exactly the price, a paused marketplace does
//!   not trade, a batch is all or nothing, escrow follows the market.
//! - [`fees`] is the fee arithmetic; [`types`], [`effects`] and [`address`]
//!   are the records, what a step hands to the host, and addresses.
//! - [`ngo`] is the NGO registry with its simple marketplace, royalties and
//!   verification queue.

pub mod address;
pub mod effects;
pub mod fees;
pub mod impact_buyer;
pub mod market_state;
pub mod ngo;
pub mod theorems;
pub mod types;
