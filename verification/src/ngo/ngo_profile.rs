//! Profiles of the NGOs that use the registry.

use vstd::prelude::*;
use crate::address::Address;
use crate::ngo::storage::{Storage, StorageModel};

verus! {

/// What the registry knows of an NGO.
#[derive(Clone, Debug, PartialEq, Eq)]
pub struct NGOProfile {
    pub owner: Address,
    pub name: String,
    pub description: String,
    pub total_impact_products: u64,
    pub total_sold: u64,
    pub total_earnings: u64,
    pub verified: bool,
}

/// Registers an NGO under its owner's address: no products, no sales, no
/// earnings, not verified. A profile that the owner had before is replaced.
pub fn _register_ngo(env: &mut Storage, owner: Address, name: String, description: String)
    ensures
        final(env)@ == (StorageModel {
            profiles: old(env)@.profiles.insert(
                owner,
                NGOProfile {
                    owner,
                    name,
                    description,
                    total_impact_products: 0,
                    total_sold: 0,
                    total_earnings: 0,
                    verified: false,
                },
            ),
            ..old(env)@
        }),
{
    let profile = NGOProfile {
        owner,
        name,
        description,
        total_impact_products: 0,
        total_sold: 0,
        total_earnings: 0,
        verified: false,
    };
    env.set_profile(profile);
}

/// The profile registered for `owner`.
pub fn _get_ngo_profile(env: &Storage, owner: Address) -> (r: Option<&NGOProfile>)
    ensures
        match r {
            Some(profile) => env@.profiles.contains_key(owner) && *profile == env@.profiles[owner],
            None => !env@.profiles.contains_key(owner),
        },
{
    env.profile(&owner)
}

} // verus!
