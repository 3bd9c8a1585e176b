//! Declarations of the lock types that drivers hold their connections in.

use vstd::prelude::*;

verus! {

/// The mutex type behind `parking_lot::Mutex`.
#[verifier::external_type_specification]
#[verifier::external_body]
#[verifier::reject_recursive_types(R)]
#[verifier::reject_recursive_types(T)]
pub struct ExLockApiMutex<R, T: ?Sized>(parking_lot::lock_api::Mutex<R, T>);

/// The raw lock of `parking_lot::Mutex`.
#[verifier::external_type_specification]
#[verifier::external_body]
pub struct ExRawMutex(parking_lot::RawMutex);

/// Creates an unlocked mutex that holds nothing yet.
///
/// Calls `parking_lot::Mutex::new` with `None`; nothing is claimed of the
/// mutex, which is opaque here.
#[verifier::external_body]
pub fn empty_slot<T>() -> (slot: parking_lot::Mutex<Option<T>>) {
    parking_lot::Mutex::new(None)
}

} // verus!
