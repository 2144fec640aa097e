//! The invariant of marketplaces holds whatever calls a marketplace has
//! seen, and what is on record stays on record.

use vstd::prelude::*;
use crate::address::Address;
use crate::fees::MAX_FEE_PERCENTAGE;
use crate::market_state::{
    delisted_count, lemma_delisted_count_bound, lemma_delisted_count_push,
    lemma_delisted_count_update, MarketState,
};
use crate::theorems::calls::{after, after_all, keeps_identifiers, MarketCall};
use crate::types::{BatchItem, ContractConfig, ErrorCode, ImpactProduct};

verus! {

/// A freshly deployed marketplace satisfies the invariant.
pub proof fn theorem_deployed_is_wf(address: Address)
    ensures
        MarketState::deployed(address).wf(),
{
}

/// Taking a listed product off the market keeps the invariant.
pub proof fn lemma_delisting_keeps_wf(state: MarketState, product_id: u32)
    requires
        state.wf(),
        state.product(product_id) matches Some(product) && product.is_listed,
    ensures
        state.with_delisted(product_id).wf(),
        delisted_count(state.with_delisted(product_id).products) == delisted_count(state.products)
            + 1,
{
    let product = state.products[product_id - 1];
    lemma_delisted_count_update(
        state.products,
        product_id - 1,
        ImpactProduct { is_listed: false, ..product },
    );
    let next = state.with_delisted(product_id);
    assert forall|j: int| 0 <= j < next.purchases.len() implies next.records_sale(
        #[trigger] next.purchases[j],
    ) by {
        assert(state.records_sale(state.purchases[j]));
    }
}

/// A purchase keeps the invariant.
proof fn lemma_purchase_keeps_wf(
    state: MarketState,
    buyer: Address,
    product_id: u32,
    buyer_balance: i128,
    timestamp: u64,
)
    requires
        state.wf(),
        state.buy_product(buyer, product_id, buyer_balance, timestamp) is Ok,
    ensures
        state.buy_product(buyer, product_id, buyer_balance, timestamp)->Ok_0.0.wf(),
{
    let next = state.buy_product(buyer, product_id, buyer_balance, timestamp)->Ok_0.0;
    let delisted = state.with_delisted(product_id);
    lemma_delisting_keeps_wf(state, product_id);
    lemma_delisted_count_bound(delisted.products);
    assert forall|j: int| 0 <= j < next.purchases.len() implies next.records_sale(
        #[trigger] next.purchases[j],
    ) by {
        if j < state.purchases.len() {
            assert(delisted.records_sale(delisted.purchases[j]));
        }
    }
}

/// A batch of purchases keeps the invariant.
proof fn lemma_batch_keeps_wf(
    state: MarketState,
    buyer: Address,
    orders: Seq<BatchItem>,
    timestamp: u64,
)
    requires
        state.wf(),
        state.batch_buy_products(buyer, orders, timestamp) is Ok,
    ensures
        state.batch_buy_products(buyer, orders, timestamp)->Ok_0.0.wf(),
        keeps_identifiers(state, state.batch_buy_products(buyer, orders, timestamp)->Ok_0.0),
    decreases orders.len(),
{
    if orders.len() > 0 {
        lemma_batch_keeps_wf(state, buyer, orders.drop_last(), timestamp);
        let middle = state.batch_buy_products(buyer, orders.drop_last(), timestamp)->Ok_0.0;
        lemma_purchase_keeps_wf(
            middle,
            buyer,
            orders.last().product_id,
            orders.last().buyer_balance,
            timestamp,
        );
    }
}

/// The invariant holds after every call that goes through.
///
/// A marketplace holds at most `u32::MAX` products; no listing is made
/// beyond that.
pub proof fn theorem_calls_keep_wf(state: MarketState, call: MarketCall)
    requires
        state.wf(),
        call is ListProduct ==> state.products.len() < u32::MAX,
    ensures
        after(state, call) matches Ok(next) ==> next.wf(),
{
    match call {
        MarketCall::ListProduct {
            seller,
            price,
            token,
            nft_contract,
            nft_token_id,
            impact_metrics,
            nft_owner,
        } => {
            if after(state, call) is Ok {
                let next = after(state, call)->Ok_0;
                lemma_delisted_count_push(state.products, next.products.last());
                assert forall|j: int| 0 <= j < next.purchases.len() implies next.records_sale(
                    #[trigger] next.purchases[j],
                ) by {
                    assert(state.records_sale(state.purchases[j]));
                }
            }
        },
        MarketCall::UnlistProduct { caller, product_id } => {
            if after(state, call) is Ok {
                let next = after(state, call)->Ok_0;
                if next != state {
                    lemma_delisting_keeps_wf(state, product_id);
                }
            }
        },
        MarketCall::BuyProduct { buyer, product_id, buyer_balance, timestamp } => {
            if after(state, call) is Ok {
                lemma_purchase_keeps_wf(state, buyer, product_id, buyer_balance, timestamp);
            }
        },
        MarketCall::BatchBuyProducts { buyer, orders, timestamp } => {
            if after(state, call) is Ok {
                lemma_batch_keeps_wf(state, buyer, orders, timestamp);
            }
        },
        MarketCall::UpdateProduct { seller, product_id, price, impact_metrics } => {
            if after(state, call) is Ok {
                let next = after(state, call)->Ok_0;
                lemma_delisted_count_update(
                    state.products,
                    product_id - 1,
                    next.products[product_id - 1],
                );
                assert forall|j: int| 0 <= j < next.purchases.len() implies next.records_sale(
                    #[trigger] next.purchases[j],
                ) by {
                    assert(state.records_sale(state.purchases[j]));
                }
            }
        },
        _ => {},
    }
}

/// No identifier is ever used twice: a call that goes through leaves every
/// product and every purchase under the identifier it had, and a product or
/// purchase that it adds gets the identifier after the largest in use.
pub proof fn theorem_identifiers_are_never_reused(state: MarketState, call: MarketCall)
    requires
        state.wf(),
        call is ListProduct ==> state.products.len() < u32::MAX,
    ensures
        after(state, call) matches Ok(next) ==> {
            &&& keeps_identifiers(state, next)
            &&& forall|i: int|
                state.products.len() <= i < next.products.len() ==> (#[trigger] next.products[i]).id
                    == i + 1
            &&& forall|j: int|
                state.purchases.len() <= j < next.purchases.len()
                    ==> (#[trigger] next.purchases[j]).id == j + 1
        },
{
    theorem_calls_keep_wf(state, call);
    match call {
        MarketCall::BatchBuyProducts { buyer, orders, timestamp } => {
            if after(state, call) is Ok {
                lemma_batch_keeps_wf(state, buyer, orders, timestamp);
            }
        },
        _ => {},
    }
}

/// A fee above the cap is refused, at initialization and at every change,
/// so the fee of a marketplace never exceeds the cap.
pub proof fn theorem_fee_is_capped(
    state: MarketState,
    admin: Address,
    fee_percentage: u32,
)
    requires
        fee_percentage > MAX_FEE_PERCENTAGE,
    ensures
        state.initialize(admin, fee_percentage) is Err,
        state.update_fee_percentage(admin, fee_percentage) is Err,
        state.admin is None ==> state.initialize(admin, fee_percentage) == Err::<
            MarketState,
            ErrorCode,
        >(ErrorCode::FeePercentageTooHigh),
        state.admin == Some(admin) ==> state.update_fee_percentage(admin, fee_percentage) == Err::<
            MarketState,
            ErrorCode,
        >(ErrorCode::FeePercentageTooHigh),
{
}

/// A marketplace is initialized once: after an initialization that went
/// through, every further one is refused, and the administrator stays.
pub proof fn theorem_initialized_once(
    state: MarketState,
    admin: Address,
    fee_percentage: u32,
    call: MarketCall,
)
    requires
        state.initialize(admin, fee_percentage) is Ok,
    ensures
        ({
            let next = state.initialize(admin, fee_percentage)->Ok_0;
            &&& next.admin == Some(admin)
            &&& next.config == (ContractConfig { fee_percentage, is_paused: false })
            &&& call is Initialize ==> after(next, call) == Err::<MarketState, ErrorCode>(
                ErrorCode::AlreadyInitialized,
            )
        }),
{
}

/// The administrator, once set, is never replaced, and the marketplace
/// keeps its address.
pub proof fn theorem_admin_is_permanent(state: MarketState, call: MarketCall)
    ensures
        after(state, call) matches Ok(next) ==> {
            &&& next.address == state.address
            &&& state.admin is Some ==> next.admin == state.admin
        },
{
    match call {
        MarketCall::BatchBuyProducts { buyer, orders, timestamp } => {
            lemma_batch_keeps_admin(state, buyer, orders, timestamp);
        },
        _ => {},
    }
}

/// A batch changes neither administrator, address nor settings.
pub proof fn lemma_batch_keeps_admin(
    state: MarketState,
    buyer: Address,
    orders: Seq<BatchItem>,
    timestamp: u64,
)
    ensures
        state.batch_buy_products(buyer, orders, timestamp) matches Ok((next, made)) ==> {
            &&& next.admin == state.admin
            &&& next.address == state.address
            &&& next.config == state.config
            &&& made.len() == orders.len()
        },
    decreases orders.len(),
{
    if orders.len() > 0 {
        lemma_batch_keeps_admin(state, buyer, orders.drop_last(), timestamp);
    }
}

/// No product is sold twice: two purchases on record are of two products.
pub proof fn theorem_no_product_is_sold_twice(state: MarketState, j: int, k: int)
    requires
        state.wf(),
        0 <= j < state.purchases.len(),
        0 <= k < state.purchases.len(),
        j != k,
    ensures
        state.purchases[j].product_id != state.purchases[k].product_id,
        state.records_sale(state.purchases[j]),
{
    if j < k {
        assert(state.purchases[j].product_id != state.purchases[k].product_id);
    } else {
        assert(state.purchases[k].product_id != state.purchases[j].product_id);
    }
}

/// A batch leaves a product that is off the market as it is.
proof fn lemma_batch_keeps_delisted(
    state: MarketState,
    buyer: Address,
    orders: Seq<BatchItem>,
    timestamp: u64,
    product_id: u32,
)
    requires
        state.product(product_id) matches Some(product) && !product.is_listed,
    ensures
        state.batch_buy_products(buyer, orders, timestamp) matches Ok((next, _)) ==> next.product(
            product_id,
        ) == state.product(product_id),
    decreases orders.len(),
{
    if orders.len() > 0 {
        lemma_batch_keeps_delisted(state, buyer, orders.drop_last(), timestamp, product_id);
    }
}

/// Off the market is for good: no call puts a product back on the market
/// that was sold or unlisted, nor changes it in any way.
pub proof fn theorem_delisting_is_final(state: MarketState, call: MarketCall, product_id: u32)
    requires
        state.product(product_id) matches Some(product) && !product.is_listed,
    ensures
        after(state, call) matches Ok(next) ==> next.product(product_id) == state.product(
            product_id,
        ),
{
    match call {
        MarketCall::BatchBuyProducts { buyer, orders, timestamp } => {
            lemma_batch_keeps_delisted(state, buyer, orders, timestamp, product_id);
        },
        _ => {},
    }
}

/// Whatever calls a marketplace has seen since it was deployed, the
/// invariant holds: identifiers count up from 1 without gaps, the fee is
/// within the cap, every purchase is the sale of a product that is off the
/// market, and no product has been sold twice.
pub proof fn theorem_every_marketplace_is_wf(address: Address, calls: Seq<MarketCall>)
    ensures
        after_all(MarketState::deployed(address), calls).wf(),
        after_all(MarketState::deployed(address), calls).address == address,
        after_all(MarketState::deployed(address), calls).config.fee_percentage
            <= MAX_FEE_PERCENTAGE,
    decreases calls.len(),
{
    if calls.len() > 0 {
        theorem_every_marketplace_is_wf(address, calls.drop_last());
        let reached = after_all(MarketState::deployed(address), calls.drop_last());
        if !(calls.last() is ListProduct && reached.products.len() >= u32::MAX) {
            theorem_calls_keep_wf(reached, calls.last());
            theorem_admin_is_permanent(reached, calls.last());
        }
    }
}

} // verus!
