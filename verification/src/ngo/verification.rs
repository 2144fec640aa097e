//! Verification of impact products.

use vstd::prelude::*;
use crate::address::Address;
use crate::ngo::storage::{Record, Storage, StorageModel};
use crate::ngo::NgoError;

verus! {

/// Where a product stands in verification.
#[derive(Clone, Copy, Debug, PartialEq, Eq, Structural)]
pub enum VerificationStatus {
    Pending,
    Approved,
    Rejected,
}

/// A product's place in the verification queue.
#[derive(Clone, Copy, Debug, PartialEq, Eq, Structural)]
pub struct VerificationQueue {
    pub product_id: u32,
    pub status: VerificationStatus,
    /// Who approved or rejected the product.
    pub verifier: Option<Address>,
}

/// The verification entry in the slot of `product_id`, if the slot holds
/// one.
pub open spec fn verification_at(env: StorageModel, product_id: u32) -> Result<
    VerificationQueue,
    NgoError,
> {
    if !env.records.contains_key(product_id) {
        Err(NgoError::RecordNotFound)
    } else {
        match env.records[product_id] {
            Record::Verification(entry) => Ok(entry),
            _ => Err(NgoError::WrongRecordKind),
        }
    }
}

fn read_verification(env: &Storage, product_id: u32) -> (r: Result<VerificationQueue, NgoError>)
    ensures
        r == verification_at(env@, product_id),
{
    match env.record(product_id) {
        None => Err(NgoError::RecordNotFound),
        Some(Record::Verification(entry)) => Ok(*entry),
        Some(_) => Err(NgoError::WrongRecordKind),
    }
}

/// Closes the verification of a product with `status`, by `verifier`.
fn decide(env: &mut Storage, product_id: u32, verifier: Address, status: VerificationStatus) -> (r:
    Result<(), NgoError>)
    ensures
        match verification_at(old(env)@, product_id) {
            Err(e) => r == Err::<(), NgoError>(e) && final(env)@ == old(env)@,
            Ok(entry) => r == Ok::<(), NgoError>(()) && final(env)@ == (StorageModel {
                records: old(env)@.records.insert(
                    product_id,
                    Record::Verification(
                        VerificationQueue { status, verifier: Some(verifier), ..entry },
                    ),
                ),
                ..old(env)@
            }),
        },
{
    let mut verification = match read_verification(env, product_id) {
        Err(e) => {
            return Err(e);
        },
        Ok(entry) => entry,
    };
    verification.status = status;
    verification.verifier = Some(verifier);
    env.set_record(product_id, Record::Verification(verification));
    Ok(())
}

/// Queues a product for verification. The entry takes the product's slot.
pub fn submit_for_verification(env: &mut Storage, product_id: u32)
    ensures
        final(env)@ == (StorageModel {
            records: old(env)@.records.insert(
                product_id,
                Record::Verification(
                    VerificationQueue {
                        product_id,
                        status: VerificationStatus::Pending,
                        verifier: None,
                    },
                ),
            ),
            ..old(env)@
        }),
{
    let verification = VerificationQueue {
        product_id,
        status: VerificationStatus::Pending,
        verifier: None,
    };
    env.set_record(product_id, Record::Verification(verification));
}

/// Approves a queued product.
pub fn approve_product(env: &mut Storage, product_id: u32, verifier: Address) -> (r: Result<
    (),
    NgoError,
>)
    ensures
        match verification_at(old(env)@, product_id) {
            Err(e) => r == Err::<(), NgoError>(e) && final(env)@ == old(env)@,
            Ok(entry) => r == Ok::<(), NgoError>(()) && final(env)@ == (StorageModel {
                records: old(env)@.records.insert(
                    product_id,
                    Record::Verification(
                        VerificationQueue {
                            status: VerificationStatus::Approved,
                            verifier: Some(verifier),
                            ..entry
                        },
                    ),
                ),
                ..old(env)@
            }),
        },
{
    decide(env, product_id, verifier, VerificationStatus::Approved)
}

/// Rejects a queued product.
pub fn reject_product(env: &mut Storage, product_id: u32, verifier: Address) -> (r: Result<
    (),
    NgoError,
>)
    ensures
        match verification_at(old(env)@, product_id) {
            Err(e) => r == Err::<(), NgoError>(e) && final(env)@ == old(env)@,
            Ok(entry) => r == Ok::<(), NgoError>(()) && final(env)@ == (StorageModel {
                records: old(env)@.records.insert(
                    product_id,
                    Record::Verification(
                        VerificationQueue {
                            status: VerificationStatus::Rejected,
                            verifier: Some(verifier),
                            ..entry
                        },
                    ),
                ),
                ..old(env)@
            }),
        },
{
    decide(env, product_id, verifier, VerificationStatus::Rejected)
}

/// The verification entry of a product, if it has one.
pub fn get_pending_products(env: &Storage, product_id: u32) -> (r: Result<
    Option<VerificationQueue>,
    NgoError,
>)
    ensures
        r == (match verification_at(env@, product_id) {
            Ok(entry) => Ok::<Option<VerificationQueue>, NgoError>(Some(entry)),
            Err(NgoError::RecordNotFound) => Ok::<Option<VerificationQueue>, NgoError>(None),
            Err(e) => Err::<Option<VerificationQueue>, NgoError>(e),
        }),
{
    match read_verification(env, product_id) {
        Ok(entry) => Ok(Some(entry)),
        Err(NgoError::RecordNotFound) => Ok(None),
        Err(e) => Err(e),
    }
}

} // verus!
