//! The entries of an NGO registry.

use std::collections::HashMap;
use vstd::prelude::*;
use crate::address::Address;
use crate::ngo::impact_product::ImpactProduct;
use crate::ngo::marketplace::MarketplaceListing;
use crate::ngo::ngo_profile::NGOProfile;
use crate::ngo::royalties::RoyaltyInfo;
use crate::ngo::verification::VerificationQueue;

verus! {

broadcast use vstd::std_specs::hash::group_hash_axioms;

/// What is kept in the slot of a product identifier.
pub enum Record {
    Product(ImpactProduct),
    Listing(MarketplaceListing),
    Royalty(RoyaltyInfo),
    Verification(VerificationQueue),
}

/// The state of a registry's storage.
#[verifier::ext_equal]
pub struct StorageModel {
    /// The administrator, once set.
    pub admin: Option<Address>,
    /// The identifier of the product created last, once a count is kept.
    pub counter: Option<u32>,
    /// The slots of the product identifiers that hold an entry.
    pub records: Map<u32, Record>,
    /// The profiles, by owner.
    pub profiles: Map<Address, NGOProfile>,
}

/// The profiles that `entries` hold by owner; a later entry replaces an
/// earlier one of the same owner.
pub open spec fn profiles_by_owner(entries: Seq<NGOProfile>) -> Map<Address, NGOProfile>
    decreases entries.len(),
{
    if entries.len() == 0 {
        Map::empty()
    } else {
        profiles_by_owner(entries.drop_last()).insert(entries.last().owner, entries.last())
    }
}

/// A registry's storage.
pub struct Storage {
    admin: Option<Address>,
    counter: Option<u32>,
    records: HashMap<u32, Record>,
    profiles: Vec<NGOProfile>,
}

impl View for Storage {
    type V = StorageModel;

    closed spec fn view(&self) -> StorageModel {
        StorageModel {
            admin: self.admin,
            counter: self.counter,
            records: self.records@,
            profiles: profiles_by_owner(self.profiles@),
        }
    }
}

impl Storage {
    /// Empty storage.
    pub fn new() -> (env: Storage)
        ensures
            env@ == (StorageModel {
                admin: None,
                counter: None,
                records: Map::empty(),
                profiles: Map::empty(),
            }),
    {
        Storage { admin: None, counter: None, records: HashMap::new(), profiles: Vec::new() }
    }

    /// The administrator, once set.
    pub fn admin(&self) -> (r: Option<Address>)
        ensures
            r == self@.admin,
    {
        self.admin
    }

    /// The identifier of the product created last, once a count is kept.
    pub fn counter(&self) -> (r: Option<u32>)
        ensures
            r == self@.counter,
    {
        self.counter
    }

    /// Sets the administrator.
    pub fn set_admin(&mut self, admin: Address)
        ensures
            final(self)@ == (StorageModel { admin: Some(admin), ..old(self)@ }),
    {
        self.admin = Some(admin);
    }

    /// Sets the count of products.
    pub fn set_counter(&mut self, counter: u32)
        ensures
            final(self)@ == (StorageModel { counter: Some(counter), ..old(self)@ }),
    {
        self.counter = Some(counter);
    }

    /// The entry in the slot of `product_id`.
    pub fn record(&self, product_id: u32) -> (r: Option<&Record>)
        ensures
            match r {
                Some(record) => self@.records.contains_key(product_id) && *record
                    == self@.records[product_id],
                None => !self@.records.contains_key(product_id),
            },
    {
        self.records.get(&product_id)
    }

    /// Puts `record` into the slot of `product_id`, in place of what the
    /// slot held.
    pub fn set_record(&mut self, product_id: u32, record: Record)
        ensures
            final(self)@ == (StorageModel {
                records: old(self)@.records.insert(product_id, record),
                ..old(self)@
            }),
    {
        self.records.insert(product_id, record);
    }

    /// Empties the slot of `product_id`.
    pub fn remove_record(&mut self, product_id: u32)
        ensures
            final(self)@ == (StorageModel {
                records: old(self)@.records.remove(product_id),
                ..old(self)@
            }),
    {
        self.records.remove(&product_id);
    }

    /// The profile of `owner`.
    pub fn profile(&self, owner: &Address) -> (r: Option<&NGOProfile>)
        ensures
            match r {
                Some(profile) => self@.profiles.contains_key(*owner) && *profile
                    == self@.profiles[*owner],
                None => !self@.profiles.contains_key(*owner),
            },
    {
        let mut i: usize = self.profiles.len();
        proof {
            assert(self.profiles@.take(i as int) =~= self.profiles@);
        }
        while i > 0
            invariant
                i <= self.profiles.len(),
                profiles_by_owner(self.profiles@).contains_key(*owner) == profiles_by_owner(
                    self.profiles@.take(i as int),
                ).contains_key(*owner),
                profiles_by_owner(self.profiles@).contains_key(*owner) ==> profiles_by_owner(
                    self.profiles@,
                )[*owner] == profiles_by_owner(self.profiles@.take(i as int))[*owner],
            decreases i,
        {
            proof {
                let seen = self.profiles@.take(i as int);
                assert(seen.drop_last() =~= self.profiles@.take(i - 1));
                assert(seen.last() == self.profiles@[i - 1]);
            }
            if self.profiles[i - 1].owner == *owner {
                return Some(&self.profiles[i - 1]);
            }
            i -= 1;
        }
        None
    }

    /// Keeps `profile` for its owner, in place of the profile that the owner
    /// had.
    pub fn set_profile(&mut self, profile: NGOProfile)
        ensures
            final(self)@ == (StorageModel {
                profiles: old(self)@.profiles.insert(profile.owner, profile),
                ..old(self)@
            }),
    {
        proof {
            assert(self.profiles@.push(profile).drop_last() =~= self.profiles@);
        }
        self.profiles.push(profile);
    }
}

} // verus!
