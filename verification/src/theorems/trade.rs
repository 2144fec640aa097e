//! What listing, unlisting and buying do, and when they are refused.

use vstd::prelude::*;
use crate::address::Address;
use crate::effects::{Event, NftTransfer, Settlement};
use crate::fees::{fee_of, lemma_fee_bounds, MAX_FEE_PERCENTAGE};
use crate::market_state::{lemma_delisted_count_bound, MarketState};
use crate::theorems::calls::{after, MarketCall};
use crate::theorems::well_formed::{lemma_batch_keeps_admin, lemma_delisting_keeps_wf};
use crate::types::{BatchItem, ErrorCode, ImpactProduct, Purchase};

verus! {

/// While the marketplace is paused, every call that trades is refused as
/// paused, whoever makes it and whatever its arguments.
pub proof fn theorem_paused_market_refuses_trade(state: MarketState, call: MarketCall)
    requires
        state.wf(),
        state.config.is_paused,
        call.is_trade(),
    ensures
        after(state, call) == Err::<MarketState, ErrorCode>(ErrorCode::ContractPaused),
{
    match call {
        MarketCall::BatchBuyProducts { buyer, orders, timestamp } => {
            assert(orders.take(0) =~= Seq::<BatchItem>::empty());
            state.lemma_batch_refusal_is_final(buyer, orders, 0, timestamp);
        },
        _ => {},
    }
}

/// A pause does not bind the administrator: the controls go through while
/// the marketplace is paused, the change of fee as long as the fee is within
/// the cap.
pub proof fn theorem_pause_leaves_controls_open(state: MarketState, call: MarketCall)
    requires
        state.wf(),
        state.config.is_paused,
        call.is_admin_control(),
        match call {
            MarketCall::PauseContract { admin } => state.admin == Some(admin),
            MarketCall::UnpauseContract { admin } => state.admin == Some(admin),
            MarketCall::UpdateFeePercentage { admin, new_fee_percentage } => state.admin == Some(
                admin,
            ) && new_fee_percentage <= MAX_FEE_PERCENTAGE,
            _ => true,
        },
    ensures
        after(state, call) is Ok,
        call is UnpauseContract ==> !after(state, call)->Ok_0.config.is_paused,
{
}

/// A listing gets the identifier after the largest in use. The product can
/// be fetched at once under that identifier, with the fields it was listed
/// with, and is for sale.
pub proof fn theorem_listing_is_stored(
    state: MarketState,
    seller: Address,
    price: i128,
    token: Address,
    nft_contract: Address,
    nft_token_id: String,
    impact_metrics: Vec<(String, String)>,
    nft_owner: Address,
)
    requires
        state.wf(),
        state.products.len() < u32::MAX,
        state.list_product(
            seller,
            price,
            token,
            nft_contract,
            nft_token_id,
            impact_metrics,
            nft_owner,
        ) is Ok,
    ensures
        ({
            let (next, listing) = state.list_product(
                seller,
                price,
                token,
                nft_contract,
                nft_token_id,
                impact_metrics,
                nft_owner,
            )->Ok_0;
            &&& listing.product_id == state.products.len() + 1
            &&& state.products.len() > 0 ==> listing.product_id == state.products.last().id + 1
            &&& forall|i: int|
                0 <= i < state.products.len() ==> (#[trigger] state.products[i]).id
                    < listing.product_id
            &&& state.product(listing.product_id) is None
            &&& next.product(listing.product_id) == Some(
                ImpactProduct {
                    id: listing.product_id,
                    price,
                    seller,
                    token,
                    nft_contract,
                    nft_token_id,
                    impact_metrics,
                    is_listed: true,
                },
            )
            &&& listing.escrow == (NftTransfer {
                nft_contract,
                nft_token_id,
                from: seller,
                to: state.address,
            })
            &&& listing.event == (Event::ProductListed { seller, product_id: listing.product_id })
        }),
{
}

/// A product is off the market once it has been unlisted, and its NFT goes
/// back from escrow to the seller exactly when the call took it off.
pub proof fn theorem_unlisted_product_is_off_the_market(
    state: MarketState,
    caller: Address,
    product_id: u32,
)
    requires
        state.wf(),
        state.unlist_product(caller, product_id) is Ok,
    ensures
        ({
            let (next, release) = state.unlist_product(caller, product_id)->Ok_0;
            let product = state.product(product_id)->0;
            &&& state.product(product_id) is Some
            &&& next.product(product_id) == Some(ImpactProduct { is_listed: false, ..product })
            &&& release is Some <==> product.is_listed
            &&& release is Some ==> release->0 == (NftTransfer {
                nft_contract: product.nft_contract,
                nft_token_id: product.nft_token_id,
                from: state.address,
                to: product.seller,
            })
        }),
{
}

/// A sale moves exactly the price: the platform's fee, which is the price
/// times the fee rate over one thousand, rounded toward zero, goes to the
/// administrator, the rest to the seller, both from the buyer in the
/// product's payment token. The NFT goes from escrow to the buyer, the
/// product is off the market, and the purchase is on record under the next
/// identifier.
pub proof fn theorem_sale_settles_exactly(
    state: MarketState,
    buyer: Address,
    product_id: u32,
    buyer_balance: i128,
    timestamp: u64,
)
    requires
        state.wf(),
        state.buy_product(buyer, product_id, buyer_balance, timestamp) is Ok,
    ensures
        ({
            let (next, settlement) = state.buy_product(
                buyer,
                product_id,
                buyer_balance,
                timestamp,
            )->Ok_0;
            let product = state.product(product_id)->0;
            let fee = fee_of(product.price as int, state.config.fee_percentage as int);
            &&& state.product(product_id) is Some
            &&& product.is_listed
            &&& buyer_balance >= product.price
            &&& settlement.fee_payment.amount == fee
            &&& settlement.seller_payment.amount == product.price - fee
            &&& settlement.fee_payment.amount + settlement.seller_payment.amount == product.price
            &&& product.price >= 0 ==> fee == product.price * state.config.fee_percentage / 1000
            &&& product.price >= 0 ==> 0 <= fee <= product.price
            &&& settlement.fee_payment.to == state.admin->0
            &&& settlement.seller_payment.to == product.seller
            &&& settlement.fee_payment.from == buyer
            &&& settlement.seller_payment.from == buyer
            &&& settlement.fee_payment.token == product.token
            &&& settlement.seller_payment.token == product.token
            &&& settlement.delivery == (NftTransfer {
                nft_contract: product.nft_contract,
                nft_token_id: product.nft_token_id,
                from: state.address,
                to: buyer,
            })
            &&& settlement.event == (Event::ProductBought {
                buyer,
                purchase_id: settlement.purchase_id,
            })
            &&& settlement.purchase_id == state.purchases.len() + 1
            &&& next.product(product_id) == Some(ImpactProduct { is_listed: false, ..product })
            &&& next.purchase(settlement.purchase_id) == Some(
                Purchase {
                    id: settlement.purchase_id,
                    product_id,
                    buyer,
                    total_price: product.price,
                    platform_fee: fee as i128,
                    nft_contract: product.nft_contract,
                    nft_token_id: product.nft_token_id,
                    timestamp,
                },
            )
        }),
{
    let product = state.product(product_id)->0;
    lemma_fee_bounds(product.price as int, state.config.fee_percentage as int);
    lemma_delisting_keeps_wf(state, product_id);
    lemma_delisted_count_bound(state.with_delisted(product_id).products);
}

/// The quote decides the purchase: a purchase that the quote refuses is
/// refused for the same reason whatever the buyer holds, and a purchase
/// that the quote admits goes through exactly when the buyer holds the
/// price, in the token that the quote names.
pub proof fn theorem_quote_decides_purchase(
    state: MarketState,
    buyer: Address,
    product_id: u32,
    buyer_balance: i128,
    timestamp: u64,
)
    requires
        state.wf(),
    ensures
        match state.quote_purchase(buyer, product_id) {
            Err(e) => state.buy_product(buyer, product_id, buyer_balance, timestamp) == Err::<
                (MarketState, Settlement),
                ErrorCode,
            >(e),
            Ok(query) => {
                &&& query.owner == buyer
                &&& buyer_balance < query.at_least ==> state.buy_product(
                    buyer,
                    product_id,
                    buyer_balance,
                    timestamp,
                ) == Err::<(MarketState, Settlement), ErrorCode>(ErrorCode::InsufficientFunds)
                &&& buyer_balance >= query.at_least ==> {
                    &&& state.buy_product(buyer, product_id, buyer_balance, timestamp) matches Ok(
                        (_, settlement),
                    )
                    &&& settlement.seller_payment.token == query.token
                    &&& settlement.fee_payment.token == query.token
                    &&& settlement.seller_payment.amount + settlement.fee_payment.amount
                        == query.at_least
                }
            },
        },
{
    if state.quote_purchase(buyer, product_id) is Ok {
        let product = state.product(product_id)->0;
        lemma_fee_bounds(product.price as int, state.config.fee_percentage as int);
    }
}

/// Nobody buys their own product.
pub proof fn theorem_seller_cannot_buy_own_product(
    state: MarketState,
    product_id: u32,
    buyer_balance: i128,
    timestamp: u64,
)
    requires
        state.product(product_id) is Some,
    ensures
        ({
            let product = state.product(product_id)->0;
            let outcome = state.buy_product(product.seller, product_id, buyer_balance, timestamp);
            &&& outcome is Err
            &&& state.closed_for_business() is None && product.is_listed ==> outcome == Err::<
                (MarketState, Settlement),
                ErrorCode,
            >(ErrorCode::CannotBuyOwnNFT)
        }),
{
}

/// A batch that goes through is the chain of its purchases: one settlement
/// for each order, in order, each made in the state the orders before it
/// left behind.
pub proof fn theorem_batch_is_a_chain_of_purchases(
    state: MarketState,
    buyer: Address,
    orders: Seq<BatchItem>,
    timestamp: u64,
    k: int,
)
    requires
        state.batch_buy_products(buyer, orders, timestamp) is Ok,
        0 <= k < orders.len(),
    ensures
        ({
            let made = state.batch_buy_products(buyer, orders, timestamp)->Ok_0.1;
            let earlier = state.batch_buy_products(buyer, orders.take(k), timestamp);
            &&& made.len() == orders.len()
            &&& earlier is Ok
            &&& earlier->Ok_0.0.buy_product(
                buyer,
                orders[k].product_id,
                orders[k].buyer_balance,
                timestamp,
            ) matches Ok((_, settlement)) && settlement == made[k]
        }),
    decreases orders.len(),
{
    lemma_batch_keeps_admin(state, buyer, orders, timestamp);
    if k == orders.len() - 1 {
        assert(orders.take(k) =~= orders.drop_last());
    } else {
        assert(orders.drop_last().take(k) =~= orders.take(k));
        lemma_batch_keeps_admin(state, buyer, orders.drop_last(), timestamp);
        theorem_batch_is_a_chain_of_purchases(state, buyer, orders.drop_last(), timestamp, k);
    }
}

/// One refused order refuses the batch: if the orders before order `k` go
/// through and order `k` is refused in the state they leave, the batch is
/// refused for that reason.
pub proof fn theorem_batch_is_all_or_nothing(
    state: MarketState,
    buyer: Address,
    orders: Seq<BatchItem>,
    timestamp: u64,
    k: int,
)
    requires
        0 <= k < orders.len(),
        state.batch_buy_products(buyer, orders.take(k), timestamp) is Ok,
        state.batch_buy_products(buyer, orders.take(k), timestamp)->Ok_0.0.buy_product(
            buyer,
            orders[k].product_id,
            orders[k].buyer_balance,
            timestamp,
        ) is Err,
    ensures
        state.batch_buy_products(buyer, orders, timestamp) == Err::<
            (MarketState, Seq<Settlement>),
            ErrorCode,
        >(
            state.batch_buy_products(buyer, orders.take(k), timestamp)->Ok_0.0.buy_product(
                buyer,
                orders[k].product_id,
                orders[k].buyer_balance,
                timestamp,
            )->Err_0,
        ),
{
    assert(orders.take(k + 1).drop_last() =~= orders.take(k));
    assert(orders.take(k + 1).last() == orders[k]);
    state.lemma_batch_refusal_is_final(buyer, orders, k + 1, timestamp);
}

} // verus!
