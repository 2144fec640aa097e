//! What a step of the marketplace asks its host to carry out.
//!
//! The marketplace decides; it moves neither tokens nor NFTs itself. Each
//! successful step hands back the transfers to make and the event to publish.
//! The host performs them in the order given and discards the whole step,
//! the marketplace's new state included, if one of them fails. Where a step
//! depends on what another contract holds, the marketplace says what to ask.

use vstd::prelude::*;
use crate::address::Address;

verus! {

/// An NFT changing hands.
#[derive(Clone, Debug, PartialEq, Eq)]
pub struct NftTransfer {
    pub nft_contract: Address,
    pub nft_token_id: String,
    pub from: Address,
    pub to: Address,
}

/// A payment in some token.
#[derive(Clone, Copy, Debug, PartialEq, Eq, Structural)]
pub struct TokenTransfer {
    pub token: Address,
    pub from: Address,
    pub to: Address,
    pub amount: i128,
}

/// A question to a token contract: does `owner` hold `at_least` of `token`?
/// The host answers it with the balance that the token contract reports.
#[derive(Clone, Copy, Debug, PartialEq, Eq, Structural)]
pub struct BalanceQuery {
    pub token: Address,
    pub owner: Address,
    pub at_least: i128,
}

/// An event to publish. Topic and payload both carry the two fields.
#[derive(Clone, Copy, Debug, PartialEq, Eq, Structural)]
pub enum Event {
    ProductListed { seller: Address, product_id: u32 },
    ProductBought { buyer: Address, purchase_id: u32 },
}

/// The outcome of a listing.
#[derive(Clone, Debug, PartialEq, Eq)]
pub struct Listing {
    /// The identifier the product received.
    pub product_id: u32,
    /// The NFT going from the seller into the marketplace's custody.
    pub escrow: NftTransfer,
    pub event: Event,
}

/// The outcome of a purchase: first the seller is paid, then the platform,
/// then the NFT leaves custody.
#[derive(Clone, Debug, PartialEq, Eq)]
pub struct Settlement {
    /// The identifier the purchase received.
    pub purchase_id: u32,
    /// The seller's share, from the buyer.
    pub seller_payment: TokenTransfer,
    /// The platform's fee, from the buyer to the administrator.
    pub fee_payment: TokenTransfer,
    /// The NFT going from the marketplace's custody to the buyer.
    pub delivery: NftTransfer,
    pub event: Event,
}

} // verus!
