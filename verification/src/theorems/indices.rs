//! The indices by seller and by buyer only grow, and only at their end.

use vstd::prelude::*;
use crate::address::Address;
use crate::market_state::{listed_by, made_by, product_id_of, purchase_id_of, MarketState};
use crate::theorems::calls::{after, MarketCall};
use crate::types::{BatchItem, ImpactProduct};

verus! {

/// Mapping after a push is a push after mapping.
proof fn lemma_map_values_push<A, B>(s: Seq<A>, a: A, f: spec_fn(A) -> B)
    ensures
        s.push(a).map_values(f) == s.map_values(f).push(f(a)),
{
    assert(s.push(a).map_values(f) =~= s.map_values(f).push(f(a)));
}

/// Replacing an element by one that `pred` and `f` do not tell from it
/// leaves what `f` gives of the elements that `pred` holds of as it is.
proof fn lemma_index_ignores_update<A, B>(
    s: Seq<A>,
    i: int,
    a: A,
    pred: spec_fn(A) -> bool,
    f: spec_fn(A) -> B,
)
    requires
        0 <= i < s.len(),
        pred(a) == pred(s[i]),
        f(a) == f(s[i]),
    ensures
        s.update(i, a).filter(pred).map_values(f) == s.filter(pred).map_values(f),
    decreases s.len(),
{
    let front = s.drop_last();
    if i == s.len() - 1 {
        assert(s.update(i, a) =~= front.push(a));
        assert(s =~= front.push(s.last()));
        front.lemma_filter_push(a, pred);
        front.lemma_filter_push(s.last(), pred);
        lemma_map_values_push(front.filter(pred), a, f);
        lemma_map_values_push(front.filter(pred), s.last(), f);
    } else {
        assert(s.update(i, a) =~= front.update(i, a).push(s.last()));
        assert(s =~= front.push(s.last()));
        lemma_index_ignores_update(front, i, a, pred, f);
        front.update(i, a).lemma_filter_push(s.last(), pred);
        front.lemma_filter_push(s.last(), pred);
        lemma_map_values_push(front.update(i, a).filter(pred), s.last(), f);
        lemma_map_values_push(front.filter(pred), s.last(), f);
    }
}

/// Taking a product off the market leaves every seller's index as it is.
proof fn lemma_delisting_keeps_seller_index(state: MarketState, product_id: u32, seller: Address)
    requires
        state.product(product_id) is Some,
    ensures
        state.with_delisted(product_id).seller_index(seller) == state.seller_index(seller),
{
    let product = state.products[product_id - 1];
    lemma_index_ignores_update(
        state.products,
        product_id - 1,
        ImpactProduct { is_listed: false, ..product },
        listed_by(seller),
        product_id_of(),
    );
}

/// What a purchase does to the indices: the buyer's index gains the
/// purchase, every other index stays.
proof fn lemma_purchase_extends_indices(
    state: MarketState,
    buyer: Address,
    product_id: u32,
    buyer_balance: i128,
    timestamp: u64,
    who: Address,
)
    requires
        state.buy_product(buyer, product_id, buyer_balance, timestamp) is Ok,
    ensures
        ({
            let (next, settlement) = state.buy_product(
                buyer,
                product_id,
                buyer_balance,
                timestamp,
            )->Ok_0;
            &&& next.seller_index(who) == state.seller_index(who)
            &&& next.buyer_index(who) == if who == buyer {
                state.buyer_index(who).push(settlement.purchase_id)
            } else {
                state.buyer_index(who)
            }
        }),
{
    let (next, settlement) = state.buy_product(buyer, product_id, buyer_balance, timestamp)->Ok_0;
    lemma_delisting_keeps_seller_index(state, product_id, who);
    state.purchases.lemma_filter_push(next.purchases.last(), made_by(who));
    lemma_map_values_push(
        state.purchases.filter(made_by(who)),
        next.purchases.last(),
        purchase_id_of(),
    );
}

/// A batch leaves every seller's index as it is and only adds to a buyer's.
proof fn lemma_batch_extends_indices(
    state: MarketState,
    buyer: Address,
    orders: Seq<BatchItem>,
    timestamp: u64,
    who: Address,
)
    ensures
        state.batch_buy_products(buyer, orders, timestamp) matches Ok((next, _)) ==> {
            &&& next.seller_index(who) == state.seller_index(who)
            &&& state.buyer_index(who).is_prefix_of(next.buyer_index(who))
            &&& who != buyer ==> next.buyer_index(who) == state.buyer_index(who)
        },
    decreases orders.len(),
{
    if orders.len() > 0 && state.batch_buy_products(buyer, orders, timestamp) is Ok {
        lemma_batch_extends_indices(state, buyer, orders.drop_last(), timestamp, who);
        let middle = state.batch_buy_products(buyer, orders.drop_last(), timestamp)->Ok_0.0;
        lemma_purchase_extends_indices(
            middle,
            buyer,
            orders.last().product_id,
            orders.last().buyer_balance,
            timestamp,
            who,
        );
    }
}

/// The seller's index only grows, and only at its end: a listing by the
/// seller adds the new product's identifier, and no other call changes the
/// index.
pub proof fn theorem_seller_index_is_append_only(
    state: MarketState,
    call: MarketCall,
    seller: Address,
)
    ensures
        after(state, call) matches Ok(next) ==> {
            &&& state.seller_index(seller).is_prefix_of(next.seller_index(seller))
            &&& next.seller_index(seller) == if call.is_listing_by(seller) {
                state.seller_index(seller).push((state.products.len() + 1) as u32)
            } else {
                state.seller_index(seller)
            }
        },
{
    if after(state, call) is Ok {
        let next = after(state, call)->Ok_0;
        match call {
            MarketCall::ListProduct { .. } => {
                state.products.lemma_filter_push(next.products.last(), listed_by(seller));
                lemma_map_values_push(
                    state.products.filter(listed_by(seller)),
                    next.products.last(),
                    product_id_of(),
                );
            },
            MarketCall::UnlistProduct { caller, product_id } => {
                if next != state {
                    lemma_delisting_keeps_seller_index(state, product_id, seller);
                }
            },
            MarketCall::BuyProduct { buyer, product_id, buyer_balance, timestamp } => {
                lemma_purchase_extends_indices(
                    state,
                    buyer,
                    product_id,
                    buyer_balance,
                    timestamp,
                    seller,
                );
            },
            MarketCall::BatchBuyProducts { buyer, orders, timestamp } => {
                lemma_batch_extends_indices(state, buyer, orders, timestamp, seller);
            },
            MarketCall::UpdateProduct { seller: updater, product_id, price, impact_metrics } => {
                lemma_index_ignores_update(
                    state.products,
                    product_id - 1,
                    next.products[product_id - 1],
                    listed_by(seller),
                    product_id_of(),
                );
            },
            _ => {},
        }
    }
}

/// The buyer's index only grows, and only at its end: a purchase by the
/// buyer adds the new purchase's identifier, and no call by anyone else
/// changes the index.
pub proof fn theorem_buyer_index_is_append_only(
    state: MarketState,
    call: MarketCall,
    buyer: Address,
)
    ensures
        after(state, call) matches Ok(next) ==> {
            &&& state.buyer_index(buyer).is_prefix_of(next.buyer_index(buyer))
            &&& call.is_purchase_by(buyer) ==> next.buyer_index(buyer) == state.buyer_index(
                buyer,
            ).push((state.purchases.len() + 1) as u32)
            &&& !call.is_purchase_by(buyer) && !call.is_batch_by(buyer) ==> next.buyer_index(buyer)
                == state.buyer_index(buyer)
        },
{
    if after(state, call) is Ok {
        match call {
            MarketCall::BuyProduct { buyer: who, product_id, buyer_balance, timestamp } => {
                lemma_purchase_extends_indices(
                    state,
                    who,
                    product_id,
                    buyer_balance,
                    timestamp,
                    buyer,
                );
            },
            MarketCall::BatchBuyProducts { buyer: who, orders, timestamp } => {
                lemma_batch_extends_indices(state, who, orders, timestamp, buyer);
            },
            _ => {},
        }
    }
}

} // verus!
