//! Records kept by the impact marketplace.

use vstd::prelude::*;
use crate::address::Address;

verus! {

/// An impact NFT offered for sale.
#[derive(Clone, Debug, PartialEq, Eq)]
pub struct ImpactProduct {
    /// Identifier, assigned at listing: 1 for the first product, then 2, ...
    pub id: u32,
    /// Price in units of the payment token.
    pub price: i128,
    /// Who listed the product and receives the proceeds.
    pub seller: Address,
    /// The token contract in which the price is paid.
    pub token: Address,
    /// The NFT contract that holds the token on offer.
    pub nft_contract: Address,
    /// The token's identifier inside the NFT contract.
    pub nft_token_id: String,
    /// Impact metrics and certifications, as pairs of name and value. Where
    /// a name occurs twice, the later pair counts.
    pub impact_metrics: Vec<(String, String)>,
    /// Whether the product is still for sale.
    pub is_listed: bool,
}

/// The value that `metrics` give for `name`: that of the last pair with that
/// name, as a later pair replaces an earlier one.
pub open spec fn metric_of(metrics: Seq<(String, String)>, name: Seq<char>) -> Option<String>
    decreases metrics.len(),
{
    if metrics.len() == 0 {
        None
    } else if metrics.last().0@ == name {
        Some(metrics.last().1)
    } else {
        metric_of(metrics.drop_last(), name)
    }
}

impl ImpactProduct {
    /// The value of the impact metric `name`, if the product has one.
    pub fn metric(&self, name: &String) -> (r: Option<&String>)
        ensures
            match r {
                Some(value) => metric_of(self.impact_metrics@, name@) == Some(*value),
                None => metric_of(self.impact_metrics@, name@) is None,
            },
    {
        let mut i: usize = self.impact_metrics.len();
        proof {
            assert(self.impact_metrics@.take(i as int) =~= self.impact_metrics@);
        }
        while i > 0
            invariant
                i <= self.impact_metrics.len(),
                metric_of(self.impact_metrics@, name@) == metric_of(
                    self.impact_metrics@.take(i as int),
                    name@,
                ),
            decreases i,
        {
            proof {
                let seen = self.impact_metrics@.take(i as int);
                assert(seen.drop_last() =~= self.impact_metrics@.take(i - 1));
                assert(seen.last() == self.impact_metrics@[i - 1]);
            }
            if self.impact_metrics[i - 1].0 == *name {
                return Some(&self.impact_metrics[i - 1].1);
            }
            i -= 1;
        }
        None
    }
}

/// The record of one completed purchase.
#[derive(Clone, Debug, PartialEq, Eq)]
pub struct Purchase {
    /// Identifier, assigned at purchase: 1 for the first purchase, then 2, ...
    pub id: u32,
    /// The product that was bought.
    pub product_id: u32,
    pub buyer: Address,
    /// What the buyer paid in all.
    pub total_price: i128,
    /// The part of `total_price` that went to the platform.
    pub platform_fee: i128,
    pub nft_contract: Address,
    pub nft_token_id: String,
    /// Ledger time at which the purchase closed.
    pub timestamp: u64,
}

/// One item of a batch purchase.
#[derive(Clone, Copy, Debug, PartialEq, Eq, Structural)]
pub struct BatchItem {
    /// The product to buy.
    pub product_id: u32,
    /// The buyer's balance in that product's payment token when its turn
    /// comes.
    pub buyer_balance: i128,
}

/// The marketplace's settings.
#[derive(Clone, Copy, Debug, PartialEq, Eq, Structural)]
pub struct ContractConfig {
    /// The platform's share of each sale, in parts per thousand (25 is 2.5 %).
    pub fee_percentage: u32,
    /// While paused, the marketplace refuses listings, sales and updates.
    pub is_paused: bool,
}

/// Why the marketplace refused a call.
#[derive(Clone, Copy, Debug, PartialEq, Eq, Structural)]
pub enum ErrorCode {
    AlreadyInitialized,
    Unauthorized,
    ProductNotFound,
    ProductNotListed,
    InsufficientFunds,
    CannotBuyOwnNFT,
    ContractPaused,
    /// A fee above `MAX_FEE_PERCENTAGE` was asked for.
    FeePercentageTooHigh,
    /// The marketplace has no administrator yet.
    NotInitialized,
}

impl ErrorCode {
    /// The code under which the error is reported on the ledger.
    pub open spec fn spec_code(self) -> u32 {
        match self {
            ErrorCode::AlreadyInitialized => 0,
            ErrorCode::Unauthorized => 1,
            ErrorCode::ProductNotFound => 2,
            ErrorCode::ProductNotListed => 3,
            ErrorCode::InsufficientFunds => 4,
            ErrorCode::CannotBuyOwnNFT => 5,
            ErrorCode::ContractPaused => 6,
            ErrorCode::FeePercentageTooHigh => 7,
            ErrorCode::NotInitialized => 8,
        }
    }

    /// The code under which the error is reported on the ledger.
    #[verifier::when_used_as_spec(spec_code)]
    pub fn code(self) -> (c: u32)
        ensures
            c == self.spec_code(),
    {
        match self {
            ErrorCode::AlreadyInitialized => 0,
            ErrorCode::Unauthorized => 1,
            ErrorCode::ProductNotFound => 2,
            ErrorCode::ProductNotListed => 3,
            ErrorCode::InsufficientFunds => 4,
            ErrorCode::CannotBuyOwnNFT => 5,
            ErrorCode::ContractPaused => 6,
            ErrorCode::FeePercentageTooHigh => 7,
            ErrorCode::NotInitialized => 8,
        }
    }
}

} // verus!
