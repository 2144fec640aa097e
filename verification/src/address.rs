//! Ledger addresses as plain values.

use vstd::prelude::*;

verus! {

/// What an address names on the ledger.
#[derive(Clone, Copy, Debug, PartialEq, Eq, Hash, Structural)]
pub enum AddressKind {
    /// An account, named by its public key.
    Account,
    /// A deployed contract, named by its identifier.
    Contract,
}

/// An address: its kind and its 256-bit payload, held as two halves.
///
/// Two addresses are the same address exactly when kind and payload agree.
#[derive(Clone, Copy, Debug, PartialEq, Eq, Hash, Structural)]
pub struct Address {
    pub kind: AddressKind,
    /// The upper 128 bits of the payload.
    pub hi: u128,
    /// The lower 128 bits of the payload.
    pub lo: u128,
}

impl Address {
    /// The address of the account whose key is `hi`, `lo`.
    pub fn account(hi: u128, lo: u128) -> (a: Address)
        ensures
            a == (Address { kind: AddressKind::Account, hi, lo }),
    {
        Address { kind: AddressKind::Account, hi, lo }
    }

    /// The address of the contract whose identifier is `hi`, `lo`.
    pub fn contract(hi: u128, lo: u128) -> (a: Address)
        ensures
            a == (Address { kind: AddressKind::Contract, hi, lo }),
    {
        Address { kind: AddressKind::Contract, hi, lo }
    }
}

} // verus!
