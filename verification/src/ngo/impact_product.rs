//! Impact products of the registry.

use vstd::prelude::*;
use crate::address::Address;
use crate::ngo::storage::{Record, Storage, StorageModel};

verus! {

/// An impact product as the registry keeps it.
#[derive(Clone, Debug, PartialEq, Eq)]
pub struct ImpactProduct {
    pub creator: Address,
    pub metadata_uri: String,
    pub impact_value: u64,
    pub price: u64,
    pub listed: bool,
    pub sold: bool,
}

/// The count of products before the first one is created.
pub open spec fn products_so_far(env: StorageModel) -> u32 {
    match env.counter {
        Some(count) => count,
        None => 0,
    }
}

/// Creates a product, neither listed nor sold, under the next identifier,
/// and returns the identifier.
pub fn create_impact_product(
    env: &mut Storage,
    creator: Address,
    metadata_uri: String,
    impact_value: u64,
    price: u64,
) -> (product_id: u32)
    requires
        products_so_far(old(env)@) < u32::MAX,
    ensures
        product_id == products_so_far(old(env)@) + 1,
        final(env)@ == (StorageModel {
            counter: Some(product_id),
            records: old(env)@.records.insert(
                product_id,
                Record::Product(
                    ImpactProduct {
                        creator,
                        metadata_uri,
                        impact_value,
                        price,
                        listed: false,
                        sold: false,
                    },
                ),
            ),
            ..old(env)@
        }),
{
    let mut product_id: u32 = match env.counter() {
        Some(x) => x,
        None => 0,
    };
    product_id += 1;
    env.set_counter(product_id);
    let product = ImpactProduct {
        creator,
        metadata_uri,
        impact_value,
        price,
        listed: false,
        sold: false,
    };
    env.set_record(product_id, Record::Product(product));
    product_id
}

} // verus!
