//! A simple marketplace for the registry's products: one listing per
//! product, sold once, with a flat fee for the marketplace.

use vstd::prelude::*;
use crate::address::Address;
use crate::ngo::storage::{Record, Storage, StorageModel};
use crate::ngo::{NgoError, MARKETPLACE_FEE};

verus! {

/// Whether a listing can still be bought.
#[derive(Clone, Copy, Debug, PartialEq, Eq, Structural)]
pub enum ListingStatus {
    Unsold,
    Sold,
}

/// A product on offer.
#[derive(Clone, Copy, Debug, PartialEq, Eq, Structural)]
pub struct MarketplaceListing {
    pub product_id: u32,
    pub seller: Address,
    pub price: u32,
    pub status: ListingStatus,
}

/// How the price of a sale is to be divided.
#[derive(Clone, Copy, Debug, PartialEq, Eq, Structural)]
pub struct Sale {
    pub buyer: Address,
    pub seller: Address,
    /// What the seller receives.
    pub seller_amount: u32,
    /// What the marketplace keeps.
    pub marketplace_fee: u32,
}

/// The marketplace's fee on `price`, rounded down.
pub open spec fn marketplace_fee_of(price: int) -> int {
    price * MARKETPLACE_FEE as int / 100
}

/// The listing in the slot of `product_id`, if the slot holds one.
pub open spec fn listing_at(env: StorageModel, product_id: u32) -> Result<
    MarketplaceListing,
    NgoError,
> {
    if !env.records.contains_key(product_id) {
        Err(NgoError::RecordNotFound)
    } else {
        match env.records[product_id] {
            Record::Listing(listing) => Ok(listing),
            _ => Err(NgoError::WrongRecordKind),
        }
    }
}

fn read_listing(env: &Storage, product_id: u32) -> (r: Result<MarketplaceListing, NgoError>)
    ensures
        r == listing_at(env@, product_id),
{
    match env.record(product_id) {
        None => Err(NgoError::RecordNotFound),
        Some(Record::Listing(listing)) => Ok(*listing),
        Some(_) => Err(NgoError::WrongRecordKind),
    }
}

/// The simple marketplace.
pub struct MarketplaceContract;

impl MarketplaceContract {
    /// Puts a product on offer. The listing takes the product's slot.
    pub fn list_for_sale(env: &mut Storage, seller: Address, product_id: u32, price: u32) -> (r:
        Result<(), NgoError>)
        ensures
            !old(env)@.records.contains_key(product_id) ==> r == Err::<(), NgoError>(
                NgoError::RecordNotFound,
            ),
            old(env)@.records.contains_key(product_id) ==> match old(env)@.records[product_id] {
                Record::Product(product) => if product.creator == seller {
                    r == Ok::<(), NgoError>(())
                } else {
                    r == Err::<(), NgoError>(NgoError::NotOwner)
                },
                _ => r == Err::<(), NgoError>(NgoError::WrongRecordKind),
            },
            r is Err ==> final(env)@ == old(env)@,
            r is Ok ==> final(env)@ == (StorageModel {
                records: old(env)@.records.insert(
                    product_id,
                    Record::Listing(
                        MarketplaceListing {
                            product_id,
                            seller,
                            price,
                            status: ListingStatus::Unsold,
                        },
                    ),
                ),
                ..old(env)@
            }),
    {
        match env.record(product_id) {
            None => {
                return Err(NgoError::RecordNotFound);
            },
            Some(Record::Product(product)) => {
                if product.creator != seller {
                    return Err(NgoError::NotOwner);
                }
            },
            Some(_) => {
                return Err(NgoError::WrongRecordKind);
            },
        }
        let listing = MarketplaceListing {
            product_id,
            seller,
            price,
            status: ListingStatus::Unsold,
        };
        env.set_record(product_id, Record::Listing(listing));
        Ok(())
    }

    /// Sells an unsold listing to `buyer` and says how the price is divided.
    pub fn purchase_nft(env: &mut Storage, buyer: Address, product_id: u32) -> (r: Result<
        Sale,
        NgoError,
    >)
        ensures
            match listing_at(old(env)@, product_id) {
                Err(e) => r == Err::<Sale, NgoError>(e) && final(env)@ == old(env)@,
                Ok(listing) => if listing.status != ListingStatus::Unsold {
                    r == Err::<Sale, NgoError>(NgoError::NotForSale) && final(env)@ == old(env)@
                } else {
                    &&& r == Ok::<Sale, NgoError>(
                        Sale {
                            buyer,
                            seller: listing.seller,
                            seller_amount: (listing.price - marketplace_fee_of(
                                listing.price as int,
                            )) as u32,
                            marketplace_fee: marketplace_fee_of(listing.price as int) as u32,
                        },
                    )
                    &&& final(env)@ == (StorageModel {
                        records: old(env)@.records.insert(
                            product_id,
                            Record::Listing(
                                MarketplaceListing { status: ListingStatus::Sold, ..listing },
                            ),
                        ),
                        ..old(env)@
                    })
                },
            },
    {
        let mut listing = match read_listing(env, product_id) {
            Err(e) => {
                return Err(e);
            },
            Ok(listing) => listing,
        };
        if listing.status != ListingStatus::Unsold {
            return Err(NgoError::NotForSale);
        }
        let seller = listing.seller;
        let price = listing.price;
        let marketplace_fee: u32 = ((price as u64 * MARKETPLACE_FEE as u64) / 100) as u32;
        let seller_amount: u32 = price - marketplace_fee;
        listing.status = ListingStatus::Sold;
        env.set_record(product_id, Record::Listing(listing));
        Ok(Sale { buyer, seller, seller_amount, marketplace_fee })
    }

    /// Withdraws a listing; only its seller may.
    pub fn delist_product(env: &mut Storage, seller: Address, product_id: u32) -> (r: Result<
        (),
        NgoError,
    >)
        ensures
            match listing_at(old(env)@, product_id) {
                Err(e) => r == Err::<(), NgoError>(e) && final(env)@ == old(env)@,
                Ok(listing) => if listing.seller != seller {
                    r == Err::<(), NgoError>(NgoError::NotSeller) && final(env)@ == old(env)@
                } else {
                    r == Ok::<(), NgoError>(()) && final(env)@ == (StorageModel {
                        records: old(env)@.records.remove(product_id),
                        ..old(env)@
                    })
                },
            },
    {
        let listing = match read_listing(env, product_id) {
            Err(e) => {
                return Err(e);
            },
            Ok(listing) => listing,
        };
        if listing.seller != seller {
            return Err(NgoError::NotSeller);
        }
        env.remove_record(product_id);
        Ok(())
    }

    /// The listing of a product, if there is one.
    pub fn get_product_details(env: &Storage, product_id: u32) -> (r: Result<
        Option<MarketplaceListing>,
        NgoError,
    >)
        ensures
            r == (match listing_at(env@, product_id) {
                Ok(listing) => Ok::<Option<MarketplaceListing>, NgoError>(Some(listing)),
                Err(NgoError::RecordNotFound) => Ok::<Option<MarketplaceListing>, NgoError>(None),
                Err(e) => Err::<Option<MarketplaceListing>, NgoError>(e),
            }),
    {
        match read_listing(env, product_id) {
            Ok(listing) => Ok(Some(listing)),
            Err(NgoError::RecordNotFound) => Ok(None),
            Err(e) => Err(e),
        }
    }
}

} // verus!
