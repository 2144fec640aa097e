//! The calls of the marketplace as values, so that a theorem can speak of
//! every call at once.

use vstd::prelude::*;
use crate::address::Address;
use crate::market_state::MarketState;
use crate::types::{BatchItem, ErrorCode};

verus! {

/// A call that may change a marketplace, with its arguments.
#[allow(inconsistent_fields)]
pub enum MarketCall {
    Initialize { admin: Address, fee_percentage: u32 },
    ListProduct {
        seller: Address,
        price: i128,
        token: Address,
        nft_contract: Address,
        nft_token_id: String,
        impact_metrics: Vec<(String, String)>,
        nft_owner: Address,
    },
    UnlistProduct { caller: Address, product_id: u32 },
    BuyProduct { buyer: Address, product_id: u32, buyer_balance: i128, timestamp: u64 },
    BatchBuyProducts { buyer: Address, orders: Seq<BatchItem>, timestamp: u64 },
    UpdateProduct {
        seller: Address,
        product_id: u32,
        price: Option<i128>,
        impact_metrics: Option<Vec<(String, String)>>,
    },
    PauseContract { admin: Address },
    UnpauseContract { admin: Address },
    UpdateFeePercentage { admin: Address, new_fee_percentage: u32 },
}

impl MarketCall {
    /// Whether the call is one of the administrator's controls.
    pub open spec fn is_admin_control(self) -> bool {
        self is PauseContract || self is UnpauseContract || self is UpdateFeePercentage
    }

    /// Whether the call is a listing by `seller`.
    pub open spec fn is_listing_by(self, seller: Address) -> bool {
        match self {
            MarketCall::ListProduct { seller: who, .. } => who == seller,
            _ => false,
        }
    }

    /// Whether the call is the purchase of one product by `buyer`.
    pub open spec fn is_purchase_by(self, buyer: Address) -> bool {
        match self {
            MarketCall::BuyProduct { buyer: who, .. } => who == buyer,
            _ => false,
        }
    }

    /// Whether the call is a batch of purchases by `buyer`.
    pub open spec fn is_batch_by(self, buyer: Address) -> bool {
        match self {
            MarketCall::BatchBuyProducts { buyer: who, .. } => who == buyer,
            _ => false,
        }
    }

    /// Whether the call trades: lists, unlists, updates or buys.
    pub open spec fn is_trade(self) -> bool {
        self is ListProduct || self is UnlistProduct || self is BuyProduct
            || self is BatchBuyProducts || self is UpdateProduct
    }
}

/// The state that `call` leaves behind when it is made in `state`, or the
/// reason for which it is refused.
pub open spec fn after(state: MarketState, call: MarketCall) -> Result<MarketState, ErrorCode> {
    match call {
        MarketCall::Initialize { admin, fee_percentage } => state.initialize(admin, fee_percentage),
        MarketCall::ListProduct {
            seller,
            price,
            token,
            nft_contract,
            nft_token_id,
            impact_metrics,
            nft_owner,
        } => match state.list_product(
            seller,
            price,
            token,
            nft_contract,
            nft_token_id,
            impact_metrics,
            nft_owner,
        ) {
            Ok((next, _)) => Ok(next),
            Err(e) => Err(e),
        },
        MarketCall::UnlistProduct { caller, product_id } => match state.unlist_product(
            caller,
            product_id,
        ) {
            Ok((next, _)) => Ok(next),
            Err(e) => Err(e),
        },
        MarketCall::BuyProduct { buyer, product_id, buyer_balance, timestamp } => match state.buy_product(
            buyer,
            product_id,
            buyer_balance,
            timestamp,
        ) {
            Ok((next, _)) => Ok(next),
            Err(e) => Err(e),
        },
        MarketCall::BatchBuyProducts { buyer, orders, timestamp } => match state.batch_buy_products(
            buyer,
            orders,
            timestamp,
        ) {
            Ok((next, _)) => Ok(next),
            Err(e) => Err(e),
        },
        MarketCall::UpdateProduct {
            seller,
            product_id,
            price,
            impact_metrics,
        } => state.update_product(seller, product_id, price, impact_metrics),
        MarketCall::PauseContract { admin } => match state.pause_contract(admin) {
            Ok((next, _)) => Ok(next),
            Err(e) => Err(e),
        },
        MarketCall::UnpauseContract { admin } => match state.unpause_contract(admin) {
            Ok((next, _)) => Ok(next),
            Err(e) => Err(e),
        },
        MarketCall::UpdateFeePercentage {
            admin,
            new_fee_percentage,
        } => state.update_fee_percentage(admin, new_fee_percentage),
    }
}

/// The state after `calls` have been made one after the other, from
/// `state` on. A call that is refused leaves the state as it is, and so
/// does a listing that finds the marketplace full.
pub open spec fn after_all(state: MarketState, calls: Seq<MarketCall>) -> MarketState
    decreases calls.len(),
{
    if calls.len() == 0 {
        state
    } else {
        let reached = after_all(state, calls.drop_last());
        if calls.last() is ListProduct && reached.products.len() >= u32::MAX {
            reached
        } else {
            match after(reached, calls.last()) {
                Ok(next) => next,
                Err(_) => reached,
            }
        }
    }
}

/// Every record of `before` is still on record in `after`, under the same
/// identifier and at the same place.
pub open spec fn keeps_identifiers(before: MarketState, after: MarketState) -> bool {
    &&& before.products.len() <= after.products.len()
    &&& before.purchases.len() <= after.purchases.len()
    &&& forall|i: int|
        0 <= i < before.products.len() ==> (#[trigger] after.products[i]).id
            == before.products[i].id
    &&& forall|j: int|
        0 <= j < before.purchases.len() ==> #[trigger] after.purchases[j] == before.purchases[j]
}

} // verus!
