//! The state of the impact marketplace and the steps it takes.
//!
//! [`MarketState`] is the mathematical state of a marketplace. Each call
//! that the marketplace offers is a spec function on it, which gives the
//! state that the call leaves behind together with what the call hands
//! back, or the reason for which the call is refused. A refused call
//! changes nothing.

use vstd::prelude::*;
use crate::address::Address;
use crate::effects::{BalanceQuery, Event, Listing, NftTransfer, Settlement, TokenTransfer};
use crate::fees::{fee_of, MAX_FEE_PERCENTAGE};
use crate::types::{BatchItem, ContractConfig, ErrorCode, ImpactProduct, Purchase};

verus! {

/// How many of `products` are off the market.
pub open spec fn delisted_count(products: Seq<ImpactProduct>) -> nat
    decreases products.len(),
{
    if products.len() == 0 {
        0
    } else {
        delisted_count(products.drop_last()) + if products.last().is_listed {
            0nat
        } else {
            1nat
        }
    }
}

/// Listing one more product leaves the number of delisted products as it is.
pub proof fn lemma_delisted_count_push(products: Seq<ImpactProduct>, product: ImpactProduct)
    ensures
        delisted_count(products.push(product)) == delisted_count(products) + if product.is_listed {
            0nat
        } else {
            1nat
        },
{
    assert(products.push(product).drop_last() =~= products);
}

/// Replacing one product changes the number of delisted products by what
/// the replacement adds less what the replaced one took.
pub proof fn lemma_delisted_count_update(products: Seq<ImpactProduct>, i: int, product: ImpactProduct)
    requires
        0 <= i < products.len(),
    ensures
        delisted_count(products.update(i, product)) + (if products[i].is_listed {
            0nat
        } else {
            1nat
        }) == delisted_count(products) + (if product.is_listed {
            0nat
        } else {
            1nat
        }),
    decreases products.len(),
{
    if i == products.len() - 1 {
        assert(products.update(i, product).drop_last() =~= products.drop_last());
    } else {
        assert(products.update(i, product).drop_last() =~= products.drop_last().update(
            i,
            product,
        ));
        lemma_delisted_count_update(products.drop_last(), i, product);
    }
}

/// No more products are off the market than there are products.
pub proof fn lemma_delisted_count_bound(products: Seq<ImpactProduct>)
    ensures
        delisted_count(products) <= products.len(),
    decreases products.len(),
{
    if products.len() > 0 {
        lemma_delisted_count_bound(products.drop_last());
    }
}

/// How many of `products` are for sale and offer token `nft_token_id` of
/// `nft_contract`: so many times the marketplace holds that NFT in escrow.
pub open spec fn escrowed_among(
    products: Seq<ImpactProduct>,
    nft_contract: Address,
    nft_token_id: Seq<char>,
) -> nat
    decreases products.len(),
{
    if products.len() == 0 {
        0
    } else {
        escrowed_among(products.drop_last(), nft_contract, nft_token_id) + if offers(
            products.last(),
            nft_contract,
            nft_token_id,
        ) {
            1nat
        } else {
            0nat
        }
    }
}

/// Whether `product` is for sale and offers token `nft_token_id` of
/// `nft_contract`.
pub open spec fn offers(product: ImpactProduct, nft_contract: Address, nft_token_id: Seq<char>) -> bool {
    product.is_listed && product.nft_contract == nft_contract && product.nft_token_id@
        == nft_token_id
}

/// The values that `refs` point to.
pub open spec fn values_of<T>(refs: Seq<&T>) -> Seq<T> {
    Seq::new(refs.len(), |i: int| *refs[i])
}

/// Holds of the products that are for sale.
pub open spec fn for_sale() -> spec_fn(ImpactProduct) -> bool {
    |product: ImpactProduct| product.is_listed
}

/// Holds of the products that `seller` listed.
pub open spec fn listed_by(seller: Address) -> spec_fn(ImpactProduct) -> bool {
    |product: ImpactProduct| product.seller == seller
}

/// The identifier of a product.
pub open spec fn product_id_of() -> spec_fn(ImpactProduct) -> u32 {
    |product: ImpactProduct| product.id
}

/// The identifier of a purchase.
pub open spec fn purchase_id_of() -> spec_fn(Purchase) -> u32 {
    |purchase: Purchase| purchase.id
}

/// Holds of the purchases that `buyer` made.
pub open spec fn made_by(buyer: Address) -> spec_fn(Purchase) -> bool {
    |purchase: Purchase| purchase.buyer == buyer
}

/// Whether `purchase` is the sale of one of `products`, which are held in
/// the order of their identifiers, from 1 on: the product exists, is off the
/// market, was bought at its price by someone other than its seller, and
/// names the same NFT.
pub open spec fn is_sale_of(products: Seq<ImpactProduct>, purchase: Purchase) -> bool {
    &&& 1 <= purchase.product_id <= products.len()
    &&& !products[purchase.product_id - 1].is_listed
    &&& products[purchase.product_id - 1].price == purchase.total_price
    &&& products[purchase.product_id - 1].seller != purchase.buyer
    &&& products[purchase.product_id - 1].nft_contract == purchase.nft_contract
    &&& products[purchase.product_id - 1].nft_token_id@ == purchase.nft_token_id@
}

/// The state of a marketplace.
#[verifier::ext_equal]
pub struct MarketState {
    /// The marketplace's own address, under which it holds NFTs in escrow.
    pub address: Address,
    /// The administrator; `None` until the marketplace is initialized.
    pub admin: Option<Address>,
    pub config: ContractConfig,
    /// Every product ever listed, in the order of listing.
    pub products: Seq<ImpactProduct>,
    /// Every purchase ever made, in the order of purchase.
    pub purchases: Seq<Purchase>,
}

impl MarketState {
    /// A freshly deployed marketplace at `address`.
    pub open spec fn deployed(address: Address) -> MarketState {
        MarketState {
            address,
            admin: None,
            config: ContractConfig { fee_percentage: 0, is_paused: false },
            products: Seq::empty(),
            purchases: Seq::empty(),
        }
    }

    /// The product with identifier `id`.
    pub open spec fn product(self, id: u32) -> Option<ImpactProduct> {
        if 1 <= id <= self.products.len() {
            Some(self.products[id - 1])
        } else {
            None
        }
    }

    /// The purchase with identifier `id`.
    pub open spec fn purchase(self, id: u32) -> Option<Purchase> {
        if 1 <= id <= self.purchases.len() {
            Some(self.purchases[id - 1])
        } else {
            None
        }
    }

    /// Purchase `p` is the sale of a product of this state: the product
    /// exists, is off the market, was bought at its price by someone other
    /// than its seller, and names the same NFT.
    pub open spec fn records_sale(self, p: Purchase) -> bool {
        is_sale_of(self.products, p)
    }

    /// The invariant of every marketplace.
    ///
    /// Identifiers count up from 1 in the order of listing and purchase, so
    /// none is ever used twice; the fee never exceeds the cap; each purchase
    /// is the sale of a product that has left the market, and no product is
    /// sold twice; and nothing is on record before initialization.
    pub open spec fn wf(self) -> bool {
        &&& self.config.fee_percentage <= MAX_FEE_PERCENTAGE
        &&& self.products.len() <= u32::MAX
        &&& forall|i: int|
            0 <= i < self.products.len() ==> (#[trigger] self.products[i]).id == i + 1
        &&& forall|j: int|
            0 <= j < self.purchases.len() ==> (#[trigger] self.purchases[j]).id == j + 1
        &&& forall|j: int|
            0 <= j < self.purchases.len() ==> self.records_sale(#[trigger] self.purchases[j])
        &&& forall|j: int, k: int|
            0 <= j < k < self.purchases.len() ==> (#[trigger] self.purchases[j]).product_id
                != (#[trigger] self.purchases[k]).product_id
        &&& self.purchases.len() <= delisted_count(self.products)
        &&& self.admin is None ==> self == MarketState::deployed(self.address)
    }

    /// Initialization: the first call sets the administrator and the fee.
    pub open spec fn initialize(self, admin: Address, fee_percentage: u32) -> Result<
        MarketState,
        ErrorCode,
    > {
        if self.admin is Some {
            Err(ErrorCode::AlreadyInitialized)
        } else if fee_percentage > MAX_FEE_PERCENTAGE {
            Err(ErrorCode::FeePercentageTooHigh)
        } else {
            Ok(
                MarketState {
                    admin: Some(admin),
                    config: ContractConfig { fee_percentage, is_paused: false },
                    ..self
                },
            )
        }
    }

    /// Why a call that changes the market is refused outright, if it is.
    pub open spec fn closed_for_business(self) -> Option<ErrorCode> {
        if self.admin is None {
            Some(ErrorCode::NotInitialized)
        } else if self.config.is_paused {
            Some(ErrorCode::ContractPaused)
        } else {
            None
        }
    }

    /// Why a call by `caller` to an administrative control is refused, if it
    /// is.
    pub open spec fn not_for(self, caller: Address) -> Option<ErrorCode> {
        if self.admin is None {
            Some(ErrorCode::NotInitialized)
        } else if self.admin != Some(caller) {
            Some(ErrorCode::Unauthorized)
        } else {
            None
        }
    }

    /// Pausing: `true` when the marketplace was running.
    pub open spec fn pause_contract(self, admin: Address) -> Result<(MarketState, bool), ErrorCode> {
        match self.not_for(admin) {
            Some(e) => Err(e),
            None => if self.config.is_paused {
                Ok((self, false))
            } else {
                Ok(
                    (
                        MarketState {
                            config: ContractConfig { is_paused: true, ..self.config },
                            ..self
                        },
                        true,
                    ),
                )
            },
        }
    }

    /// Resuming: `true` when the marketplace was paused.
    pub open spec fn unpause_contract(self, admin: Address) -> Result<
        (MarketState, bool),
        ErrorCode,
    > {
        match self.not_for(admin) {
            Some(e) => Err(e),
            None => if !self.config.is_paused {
                Ok((self, false))
            } else {
                Ok(
                    (
                        MarketState {
                            config: ContractConfig { is_paused: false, ..self.config },
                            ..self
                        },
                        true,
                    ),
                )
            },
        }
    }

    /// Changing the fee; refused above the cap.
    pub open spec fn update_fee_percentage(self, admin: Address, new_fee_percentage: u32) -> Result<
        MarketState,
        ErrorCode,
    > {
        match self.not_for(admin) {
            Some(e) => Err(e),
            None => if new_fee_percentage > MAX_FEE_PERCENTAGE {
                Err(ErrorCode::FeePercentageTooHigh)
            } else {
                Ok(
                    MarketState {
                        config: ContractConfig {
                            fee_percentage: new_fee_percentage,
                            ..self.config
                        },
                        ..self
                    },
                )
            },
        }
    }

    /// Listing: the seller must be the NFT's owner as the NFT contract
    /// reports it; the product gets the next identifier and the NFT goes
    /// into escrow.
    pub open spec fn list_product(
        self,
        seller: Address,
        price: i128,
        token: Address,
        nft_contract: Address,
        nft_token_id: String,
        impact_metrics: Vec<(String, String)>,
        nft_owner: Address,
    ) -> Result<(MarketState, Listing), ErrorCode> {
        match self.closed_for_business() {
            Some(e) => Err(e),
            None => if nft_owner != seller {
                Err(ErrorCode::Unauthorized)
            } else {
                let id = (self.products.len() + 1) as u32;
                let product = ImpactProduct {
                    id,
                    price,
                    seller,
                    token,
                    nft_contract,
                    nft_token_id,
                    impact_metrics,
                    is_listed: true,
                };
                Ok(
                    (
                        MarketState { products: self.products.push(product), ..self },
                        Listing {
                            product_id: id,
                            escrow: NftTransfer {
                                nft_contract,
                                nft_token_id,
                                from: seller,
                                to: self.address,
                            },
                            event: Event::ProductListed { seller, product_id: id },
                        },
                    ),
                )
            },
        }
    }

    /// This state with product `product_id` taken off the market.
    pub open spec fn with_delisted(self, product_id: u32) -> MarketState
        recommends
            1 <= product_id <= self.products.len(),
    {
        let product = self.products[product_id - 1];
        MarketState {
            products: self.products.update(
                product_id - 1,
                ImpactProduct { is_listed: false, ..product },
            ),
            ..self
        }
    }

    /// Unlisting by the seller or the administrator: the product leaves the
    /// market and its NFT returns to the seller. Unlisting a product that is
    /// off the market already changes nothing and moves nothing.
    pub open spec fn unlist_product(self, caller: Address, product_id: u32) -> Result<
        (MarketState, Option<NftTransfer>),
        ErrorCode,
    > {
        match self.closed_for_business() {
            Some(e) => Err(e),
            None => match self.product(product_id) {
                None => Err(ErrorCode::ProductNotFound),
                Some(product) => if product.seller != caller && self.admin != Some(caller) {
                    Err(ErrorCode::Unauthorized)
                } else if !product.is_listed {
                    Ok((self, None))
                } else {
                    Ok(
                        (
                            self.with_delisted(product_id),
                            Some(
                                NftTransfer {
                                    nft_contract: product.nft_contract,
                                    nft_token_id: product.nft_token_id,
                                    from: self.address,
                                    to: product.seller,
                                },
                            ),
                        ),
                    )
                },
            },
        }
    }

    /// Updating a listed product by its seller: a price or metrics that are
    /// given replace the old ones.
    pub open spec fn update_product(
        self,
        seller: Address,
        product_id: u32,
        price: Option<i128>,
        impact_metrics: Option<Vec<(String, String)>>,
    ) -> Result<MarketState, ErrorCode> {
        match self.closed_for_business() {
            Some(e) => Err(e),
            None => match self.product(product_id) {
                None => Err(ErrorCode::ProductNotFound),
                Some(product) => if product.seller != seller {
                    Err(ErrorCode::Unauthorized)
                } else if !product.is_listed {
                    Err(ErrorCode::ProductNotListed)
                } else {
                    let updated = ImpactProduct {
                        price: match price {
                            Some(new_price) => new_price,
                            None => product.price,
                        },
                        impact_metrics: match impact_metrics {
                            Some(new_metrics) => new_metrics,
                            None => product.impact_metrics,
                        },
                        ..product
                    };
                    Ok(
                        MarketState {
                            products: self.products.update(product_id - 1, updated),
                            ..self
                        },
                    )
                },
            },
        }
    }

    /// What has to be asked before `buyer` can buy product `product_id`: the
    /// buyer's balance in the product's payment token, which must reach the
    /// price. A purchase that is refused whatever the balance is refused
    /// here, for the same reason.
    pub open spec fn quote_purchase(self, buyer: Address, product_id: u32) -> Result<
        BalanceQuery,
        ErrorCode,
    > {
        match self.closed_for_business() {
            Some(e) => Err(e),
            None => match self.product(product_id) {
                None => Err(ErrorCode::ProductNotFound),
                Some(product) => if !product.is_listed {
                    Err(ErrorCode::ProductNotListed)
                } else if product.seller == buyer {
                    Err(ErrorCode::CannotBuyOwnNFT)
                } else {
                    Ok(
                        BalanceQuery {
                            token: product.token,
                            owner: buyer,
                            at_least: product.price,
                        },
                    )
                },
            },
        }
    }

    /// Buying a listed product: the buyer, who is not the seller and holds
    /// at least the price, pays the seller's share to the seller and the fee
    /// to the administrator; the NFT leaves escrow for the buyer, the product
    /// leaves the market, and the purchase is put on record under the next
    /// identifier.
    ///
    /// `buyer_balance` is the buyer's balance in the product's payment token
    /// as the token contract reports it at the time of the call.
    pub open spec fn buy_product(
        self,
        buyer: Address,
        product_id: u32,
        buyer_balance: i128,
        timestamp: u64,
    ) -> Result<(MarketState, Settlement), ErrorCode> {
        match self.quote_purchase(buyer, product_id) {
            Err(e) => Err(e),
            Ok(query) => if buyer_balance < query.at_least {
                Err(ErrorCode::InsufficientFunds)
            } else {
                let product = self.products[product_id - 1];
                let fee = fee_of(product.price as int, self.config.fee_percentage as int);
                let purchase_id = (self.purchases.len() + 1) as u32;
                let purchase = Purchase {
                    id: purchase_id,
                    product_id,
                    buyer,
                    total_price: product.price,
                    platform_fee: fee as i128,
                    nft_contract: product.nft_contract,
                    nft_token_id: product.nft_token_id,
                    timestamp,
                };
                Ok(
                    (
                        MarketState {
                            purchases: self.purchases.push(purchase),
                            ..self.with_delisted(product_id)
                        },
                        Settlement {
                            purchase_id,
                            seller_payment: TokenTransfer {
                                token: product.token,
                                from: buyer,
                                to: product.seller,
                                amount: (product.price - fee) as i128,
                            },
                            fee_payment: TokenTransfer {
                                token: product.token,
                                from: buyer,
                                to: self.admin->0,
                                amount: fee as i128,
                            },
                            delivery: NftTransfer {
                                nft_contract: product.nft_contract,
                                nft_token_id: product.nft_token_id,
                                from: self.address,
                                to: buyer,
                            },
                            event: Event::ProductBought { buyer, purchase_id },
                        },
                    ),
                )
            },
        }
    }

    /// The products that are for sale, in the order of listing.
    pub open spec fn active_products(self) -> Seq<ImpactProduct> {
        self.products.filter(for_sale())
    }

    /// The products that `seller` listed, in the order of listing.
    pub open spec fn seller_products(self, seller: Address) -> Seq<ImpactProduct> {
        self.products.filter(listed_by(seller))
    }

    /// The purchases that `buyer` made, in the order of purchase.
    pub open spec fn buyer_purchases(self, buyer: Address) -> Seq<Purchase> {
        self.purchases.filter(made_by(buyer))
    }

    /// How many times the marketplace holds token `nft_token_id` of
    /// `nft_contract` in escrow: once for each product on the market that
    /// offers it.
    pub open spec fn escrowed(self, nft_contract: Address, nft_token_id: Seq<char>) -> nat {
        escrowed_among(self.products, nft_contract, nft_token_id)
    }

    /// The seller's index: the identifiers of the products that `seller`
    /// listed, in the order of listing.
    pub open spec fn seller_index(self, seller: Address) -> Seq<u32> {
        self.seller_products(seller).map_values(product_id_of())
    }

    /// The buyer's index: the identifiers of the purchases that `buyer`
    /// made, in the order of purchase.
    pub open spec fn buyer_index(self, buyer: Address) -> Seq<u32> {
        self.buyer_purchases(buyer).map_values(purchase_id_of())
    }

    /// Buying the products of `orders` one after the other, each from the
    /// state its predecessor left. The first refusal is the refusal of the
    /// whole batch.
    pub open spec fn batch_buy_products(
        self,
        buyer: Address,
        orders: Seq<BatchItem>,
        timestamp: u64,
    ) -> Result<(MarketState, Seq<Settlement>), ErrorCode>
        decreases orders.len(),
    {
        if orders.len() == 0 {
            match self.closed_for_business() {
                Some(e) => Err(e),
                None => Ok((self, Seq::empty())),
            }
        } else {
            match self.batch_buy_products(buyer, orders.drop_last(), timestamp) {
                Err(e) => Err(e),
                Ok((state, settlements)) => match state.buy_product(
                    buyer,
                    orders.last().product_id,
                    orders.last().buyer_balance,
                    timestamp,
                ) {
                    Err(e) => Err(e),
                    Ok((next, settlement)) => Ok((next, settlements.push(settlement))),
                },
            }
        }
    }

    /// A batch that is refused after its first `n` orders is refused as a
    /// whole, for the same reason.
    pub proof fn lemma_batch_refusal_is_final(
        self,
        buyer: Address,
        orders: Seq<BatchItem>,
        n: int,
        timestamp: u64,
    )
        requires
            0 <= n <= orders.len(),
            self.batch_buy_products(buyer, orders.take(n), timestamp) is Err,
        ensures
            self.batch_buy_products(buyer, orders, timestamp) == self.batch_buy_products(
                buyer,
                orders.take(n),
                timestamp,
            ),
        decreases orders.len(),
    {
        if n == orders.len() {
            assert(orders.take(n) =~= orders);
        } else {
            assert(orders.drop_last().take(n) =~= orders.take(n));
            self.lemma_batch_refusal_is_final(buyer, orders.drop_last(), n, timestamp);
        }
    }
}

} // verus!
