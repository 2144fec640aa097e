//! Escrow follows the market: the marketplace holds the NFT of a product
//! exactly while the product is for sale, provided that the host carries out
//! the transfers that the calls hand back.

use vstd::prelude::*;
use crate::address::Address;
use crate::effects::{NftTransfer, Settlement};
use crate::market_state::{escrowed_among, offers, MarketState};
use crate::theorems::calls::{after, MarketCall};
use crate::types::{BatchItem, ImpactProduct};

verus! {

/// Whether `transfer` moves token `nft_token_id` of `nft_contract`.
pub open spec fn moves(transfer: NftTransfer, nft_contract: Address, nft_token_id: Seq<char>) -> bool {
    transfer.nft_contract == nft_contract && transfer.nft_token_id@ == nft_token_id
}

/// How many of `settlements` deliver token `nft_token_id` of `nft_contract`.
pub open spec fn deliveries_of(
    settlements: Seq<Settlement>,
    nft_contract: Address,
    nft_token_id: Seq<char>,
) -> nat
    decreases settlements.len(),
{
    if settlements.len() == 0 {
        0
    } else {
        deliveries_of(settlements.drop_last(), nft_contract, nft_token_id) + if moves(
            settlements.last().delivery,
            nft_contract,
            nft_token_id,
        ) {
            1nat
        } else {
            0nat
        }
    }
}

/// One more product changes what is in escrow by what it offers.
proof fn lemma_escrowed_push(
    products: Seq<ImpactProduct>,
    product: ImpactProduct,
    nft_contract: Address,
    nft_token_id: Seq<char>,
)
    ensures
        escrowed_among(products.push(product), nft_contract, nft_token_id) == escrowed_among(
            products,
            nft_contract,
            nft_token_id,
        ) + if offers(product, nft_contract, nft_token_id) {
            1nat
        } else {
            0nat
        },
{
    assert(products.push(product).drop_last() =~= products);
}

/// Replacing one product changes what is in escrow by what the replacement
/// offers less what the replaced one offered.
proof fn lemma_escrowed_update(
    products: Seq<ImpactProduct>,
    i: int,
    product: ImpactProduct,
    nft_contract: Address,
    nft_token_id: Seq<char>,
)
    requires
        0 <= i < products.len(),
    ensures
        escrowed_among(products.update(i, product), nft_contract, nft_token_id) + (if offers(
            products[i],
            nft_contract,
            nft_token_id,
        ) {
            1nat
        } else {
            0nat
        }) == escrowed_among(products, nft_contract, nft_token_id) + (if offers(
            product,
            nft_contract,
            nft_token_id,
        ) {
            1nat
        } else {
            0nat
        }),
    decreases products.len(),
{
    if i == products.len() - 1 {
        assert(products.update(i, product).drop_last() =~= products.drop_last());
    } else {
        assert(products.update(i, product).drop_last() =~= products.drop_last().update(
            i,
            product,
        ));
        lemma_escrowed_update(products.drop_last(), i, product, nft_contract, nft_token_id);
    }
}

/// Escrow follows the listing: a listing puts the NFT it names into escrow,
/// once, and hands back the transfer that brings it from the seller to the
/// marketplace. Nothing else enters or leaves escrow.
pub proof fn theorem_listing_fills_escrow(
    state: MarketState,
    seller: Address,
    price: i128,
    token: Address,
    nft_contract: Address,
    nft_token_id: String,
    impact_metrics: Vec<(String, String)>,
    nft_owner: Address,
    any_contract: Address,
    any_token_id: Seq<char>,
)
    requires
        state.list_product(
            seller,
            price,
            token,
            nft_contract,
            nft_token_id,
            impact_metrics,
            nft_owner,
        ) is Ok,
    ensures
        ({
            let (next, listing) = state.list_product(
                seller,
                price,
                token,
                nft_contract,
                nft_token_id,
                impact_metrics,
                nft_owner,
            )->Ok_0;
            &&& moves(listing.escrow, nft_contract, nft_token_id@)
            &&& listing.escrow.from == seller
            &&& listing.escrow.to == state.address
            &&& next.escrowed(any_contract, any_token_id) == state.escrowed(
                any_contract,
                any_token_id,
            ) + if moves(listing.escrow, any_contract, any_token_id) {
                1nat
            } else {
                0nat
            }
        }),
{
    let (next, listing) = state.list_product(
        seller,
        price,
        token,
        nft_contract,
        nft_token_id,
        impact_metrics,
        nft_owner,
    )->Ok_0;
    lemma_escrowed_push(state.products, next.products.last(), any_contract, any_token_id);
}

/// Taking a listed product off the market takes its NFT out of escrow,
/// once, and nothing else.
proof fn lemma_delisting_empties_escrow(
    state: MarketState,
    product_id: u32,
    any_contract: Address,
    any_token_id: Seq<char>,
)
    requires
        state.product(product_id) matches Some(product) && product.is_listed,
    ensures
        state.with_delisted(product_id).escrowed(any_contract, any_token_id) + (if state.product(
            product_id,
        )->0.nft_contract == any_contract && state.product(product_id)->0.nft_token_id@
            == any_token_id {
            1nat
        } else {
            0nat
        }) == state.escrowed(any_contract, any_token_id),
{
    let product = state.products[product_id - 1];
    lemma_escrowed_update(
        state.products,
        product_id - 1,
        ImpactProduct { is_listed: false, ..product },
        any_contract,
        any_token_id,
    );
}

/// Escrow follows the unlisting: an unlisting that takes a product off the
/// market takes its NFT out of escrow, once, and hands back the transfer
/// that returns it from the marketplace to the seller. An unlisting that
/// finds the product off the market moves nothing.
pub proof fn theorem_unlisting_empties_escrow(
    state: MarketState,
    caller: Address,
    product_id: u32,
    any_contract: Address,
    any_token_id: Seq<char>,
)
    requires
        state.unlist_product(caller, product_id) is Ok,
    ensures
        ({
            let (next, release) = state.unlist_product(caller, product_id)->Ok_0;
            match release {
                None => next.escrowed(any_contract, any_token_id) == state.escrowed(
                    any_contract,
                    any_token_id,
                ),
                Some(transfer) => {
                    &&& transfer.from == state.address
                    &&& transfer.to == state.product(product_id)->0.seller
                    &&& next.escrowed(any_contract, any_token_id) + (if moves(
                        transfer,
                        any_contract,
                        any_token_id,
                    ) {
                        1nat
                    } else {
                        0nat
                    }) == state.escrowed(any_contract, any_token_id)
                },
            }
        }),
{
    let (next, release) = state.unlist_product(caller, product_id)->Ok_0;
    if release is Some {
        lemma_delisting_empties_escrow(state, product_id, any_contract, any_token_id);
    }
}

/// Escrow follows the sale: a purchase takes the product's NFT out of
/// escrow, once, and hands back the transfer that delivers it from the
/// marketplace to the buyer.
pub proof fn theorem_purchase_empties_escrow(
    state: MarketState,
    buyer: Address,
    product_id: u32,
    buyer_balance: i128,
    timestamp: u64,
    any_contract: Address,
    any_token_id: Seq<char>,
)
    requires
        state.buy_product(buyer, product_id, buyer_balance, timestamp) is Ok,
    ensures
        ({
            let (next, settlement) = state.buy_product(
                buyer,
                product_id,
                buyer_balance,
                timestamp,
            )->Ok_0;
            &&& settlement.delivery.from == state.address
            &&& settlement.delivery.to == buyer
            &&& next.escrowed(any_contract, any_token_id) + (if moves(
                settlement.delivery,
                any_contract,
                any_token_id,
            ) {
                1nat
            } else {
                0nat
            }) == state.escrowed(any_contract, any_token_id)
        }),
{
    lemma_delisting_empties_escrow(state, product_id, any_contract, any_token_id);
}

/// Escrow follows the batch: a batch takes out of escrow what its
/// settlements deliver, each NFT as often as it is delivered.
pub proof fn theorem_batch_empties_escrow(
    state: MarketState,
    buyer: Address,
    orders: Seq<BatchItem>,
    timestamp: u64,
    any_contract: Address,
    any_token_id: Seq<char>,
)
    requires
        state.batch_buy_products(buyer, orders, timestamp) is Ok,
    ensures
        ({
            let (next, settlements) = state.batch_buy_products(buyer, orders, timestamp)->Ok_0;
            next.escrowed(any_contract, any_token_id) + deliveries_of(
                settlements,
                any_contract,
                any_token_id,
            ) == state.escrowed(any_contract, any_token_id)
        }),
    decreases orders.len(),
{
    if orders.len() > 0 {
        theorem_batch_empties_escrow(
            state,
            buyer,
            orders.drop_last(),
            timestamp,
            any_contract,
            any_token_id,
        );
        let (middle, earlier) = state.batch_buy_products(buyer, orders.drop_last(), timestamp)->Ok_0;
        theorem_purchase_empties_escrow(
            middle,
            buyer,
            orders.last().product_id,
            orders.last().buyer_balance,
            timestamp,
            any_contract,
            any_token_id,
        );
        let settlement = middle.buy_product(
            buyer,
            orders.last().product_id,
            orders.last().buyer_balance,
            timestamp,
        )->Ok_0.1;
        assert(earlier.push(settlement).drop_last() =~= earlier);
    }
}

/// The calls that move no NFT leave escrow as it is: initialization, the
/// administrator's controls, and the update of a product.
pub proof fn theorem_escrow_is_untouched_otherwise(
    state: MarketState,
    call: MarketCall,
    any_contract: Address,
    any_token_id: Seq<char>,
)
    requires
        call is Initialize || call.is_admin_control() || call is UpdateProduct,
    ensures
        after(state, call) matches Ok(next) ==> next.escrowed(any_contract, any_token_id)
            == state.escrowed(any_contract, any_token_id),
{
    if after(state, call) is Ok {
        let next = after(state, call)->Ok_0;
        match call {
            MarketCall::UpdateProduct { seller, product_id, price, impact_metrics } => {
                lemma_escrowed_update(
                    state.products,
                    product_id - 1,
                    next.products[product_id - 1],
                    any_contract,
                    any_token_id,
                );
            },
            _ => {},
        }
    }
}

} // verus!
