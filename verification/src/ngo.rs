//! The NGO registry: impact products, their verification, a simple
//! marketplace for them and the royalties on their resale.
//!
//! Every part keeps its records in a [`storage::Storage`]. The entries that
//! are kept under a product's identifier share one slot: what one part writes
//! there replaces what another part wrote, and a part that finds another
//! part's entry in the slot refuses to go on.

pub mod impact_product;
pub mod marketplace;
pub mod ngo_profile;
pub mod royalties;
pub mod storage;
pub mod verification;

use vstd::prelude::*;
use crate::address::Address;
use crate::ngo::storage::{Storage, StorageModel};

verus! {

/// The marketplace's share of a sale, in percent.
pub const MARKETPLACE_FEE: u32 = 10;

/// Why a part of the registry refused a call.
#[derive(Clone, Copy, Debug, PartialEq, Eq, Structural)]
pub enum NgoError {
    /// The registry has an administrator already.
    AlreadyInitialized,
    /// The registry has no administrator yet.
    NotInitialized,
    /// The caller is not the administrator.
    Unauthorized,
    /// Nothing is kept under the identifier.
    RecordNotFound,
    /// The slot holds the entry of another part of the registry.
    WrongRecordKind,
    /// The caller did not create the product.
    NotOwner,
    /// The listing has been sold.
    NotForSale,
    /// The caller is not the seller of the listing.
    NotSeller,
}

/// The registry's administration.
pub struct NGOContract;

impl NGOContract {
    /// Sets the administrator and starts the count of products at zero;
    /// refused on every call but the first.
    pub fn initialize(env: &mut Storage, admin: Address) -> (r: Result<(), NgoError>)
        ensures
            match old(env)@.admin {
                Some(_) => r == Err::<(), NgoError>(NgoError::AlreadyInitialized) && final(env)@
                    == old(env)@,
                None => r == Ok::<(), NgoError>(()) && final(env)@ == (StorageModel {
                    admin: Some(admin),
                    counter: Some(0u32),
                    ..old(env)@
                }),
            },
    {
        if env.admin().is_some() {
            return Err(NgoError::AlreadyInitialized);
        }
        env.set_admin(admin);
        env.set_counter(0);
        Ok(())
    }

    /// Refuses anyone but the administrator.
    pub fn _check_admin(env: &Storage, caller: &Address) -> (r: Result<(), NgoError>)
        ensures
            r == (match env@.admin {
                None => Err::<(), NgoError>(NgoError::NotInitialized),
                Some(admin) => if admin == *caller {
                    Ok::<(), NgoError>(())
                } else {
                    Err::<(), NgoError>(NgoError::Unauthorized)
                },
            }),
    {
        match env.admin() {
            None => Err(NgoError::NotInitialized),
            Some(admin) => if admin == *caller {
                Ok(())
            } else {
                Err(NgoError::Unauthorized)
            },
        }
    }
}

} // verus!
