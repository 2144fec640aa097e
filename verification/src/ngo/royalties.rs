//! Royalties on the resale of a product.

use vstd::prelude::*;
use crate::address::Address;
use crate::ngo::storage::{Record, Storage, StorageModel};
use crate::ngo::NgoError;

verus! {

/// The creator's share of a resale, in percent.
pub const CREATOR_ROYALTY: u64 = 5;

/// The marketplace's share of a resale, in percent.
pub const MARKETPLACE_ROYALTY: u64 = 5;

/// Who receives royalties on a product, and how much in all.
#[derive(Clone, Copy, Debug, PartialEq, Eq, Structural)]
pub struct RoyaltyInfo {
    pub creator: Address,
    pub marketplace_wallet: Address,
    pub product_id: u32,
    /// Both shares together, in percent.
    pub royalty_percentage: u64,
}

/// How the price of a resale is to be divided.
#[derive(Clone, Copy, Debug, PartialEq, Eq, Structural)]
pub struct RoyaltySplit {
    pub creator: Address,
    pub creator_fee: u64,
    pub marketplace_wallet: Address,
    pub marketplace_fee: u64,
    pub seller: Address,
    pub seller_amount: u64,
}

/// The royalty entry in the slot of `product_id`, if the slot holds one.
pub open spec fn royalty_at(env: StorageModel, product_id: u32) -> Result<RoyaltyInfo, NgoError> {
    if !env.records.contains_key(product_id) {
        Err(NgoError::RecordNotFound)
    } else {
        match env.records[product_id] {
            Record::Royalty(info) => Ok(info),
            _ => Err(NgoError::WrongRecordKind),
        }
    }
}

fn read_royalty(env: &Storage, product_id: u32) -> (r: Result<RoyaltyInfo, NgoError>)
    ensures
        r == royalty_at(env@, product_id),
{
    match env.record(product_id) {
        None => Err(NgoError::RecordNotFound),
        Some(Record::Royalty(info)) => Ok(*info),
        Some(_) => Err(NgoError::WrongRecordKind),
    }
}

/// The royalties.
pub struct RoyaltyContract;

impl RoyaltyContract {
    /// Divides the price of a resale between creator, marketplace and
    /// seller: each royalty is its percentage of the price, rounded down,
    /// and the seller receives the rest.
    pub fn distribute_royalties(
        env: &Storage,
        product_id: u32,
        seller: Address,
        buyer: Address,
        sale_price: u64,
    ) -> (r: Result<RoyaltySplit, NgoError>)
        ensures
            r == (match royalty_at(env@, product_id) {
                Err(e) => Err::<RoyaltySplit, NgoError>(e),
                Ok(info) => Ok::<RoyaltySplit, NgoError>(
                    RoyaltySplit {
                        creator: info.creator,
                        creator_fee: (sale_price * CREATOR_ROYALTY / 100) as u64,
                        marketplace_wallet: info.marketplace_wallet,
                        marketplace_fee: (sale_price * MARKETPLACE_ROYALTY / 100) as u64,
                        seller,
                        seller_amount: (sale_price - sale_price * CREATOR_ROYALTY / 100 - sale_price
                            * MARKETPLACE_ROYALTY / 100) as u64,
                    },
                ),
            }),
            r matches Ok(split) ==> split.creator_fee + split.marketplace_fee + split.seller_amount
                == sale_price,
    {
        let royalty_info = match read_royalty(env, product_id) {
            Err(e) => {
                return Err(e);
            },
            Ok(info) => info,
        };
        let creator_fee: u64 = ((sale_price as u128 * CREATOR_ROYALTY as u128) / 100) as u64;
        let marketplace_fee: u64 = ((sale_price as u128 * MARKETPLACE_ROYALTY as u128) / 100) as u64;
        let seller_amount: u64 = sale_price - (creator_fee + marketplace_fee);
        Ok(
            RoyaltySplit {
                creator: royalty_info.creator,
                creator_fee,
                marketplace_wallet: royalty_info.marketplace_wallet,
                marketplace_fee,
                seller,
                seller_amount,
            },
        )
    }

    /// Puts the royalties of a product on record. The entry takes the
    /// product's slot.
    pub fn register_royalty(
        env: &mut Storage,
        product_id: u32,
        creator: Address,
        marketplace_wallet: Address,
    )
        ensures
            final(env)@ == (StorageModel {
                records: old(env)@.records.insert(
                    product_id,
                    Record::Royalty(
                        RoyaltyInfo {
                            creator,
                            marketplace_wallet,
                            product_id,
                            royalty_percentage: 10,
                        },
                    ),
                ),
                ..old(env)@
            }),
    {
        let royalty_info = RoyaltyInfo {
            creator,
            marketplace_wallet,
            product_id,
            royalty_percentage: CREATOR_ROYALTY + MARKETPLACE_ROYALTY,
        };
        env.set_record(product_id, Record::Royalty(royalty_info));
    }

    /// The royalties of a product, if they are on record.
    pub fn get_royalty_info(env: &Storage, product_id: u32) -> (r: Result<
        Option<RoyaltyInfo>,
        NgoError,
    >)
        ensures
            r == (match royalty_at(env@, product_id) {
                Ok(info) => Ok::<Option<RoyaltyInfo>, NgoError>(Some(info)),
                Err(NgoError::RecordNotFound) => Ok::<Option<RoyaltyInfo>, NgoError>(None),
                Err(e) => Err::<Option<RoyaltyInfo>, NgoError>(e),
            }),
    {
        match read_royalty(env, product_id) {
            Ok(info) => Ok(Some(info)),
            Err(NgoError::RecordNotFound) => Ok(None),
            Err(e) => Err(e),
        }
    }
}

} // verus!
