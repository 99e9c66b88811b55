//! Values that several holders read and change at the same time. A shared
//! value lives behind a read/write lock and a reference count: any number of
//! holders may read it together, one at a time may change it, and it stays
//! alive until its last holder lets go.
//!
//! Another holder may change a shared value between any two calls, so nothing
//! here says what a shared value holds: a reader learns only that it was given
//! some value, and what it computed from it.
//!
//! A lock is held for the length of one call and never handed out, and what
//! runs under it is code of this crate that takes no lock: no holder waits
//! for a lock while it holds one.

use parking_lot::RwLock;
use std::sync::Arc;
use vstd::prelude::*;

verus! {

/// `RwLock` of the crate `lock_api`, which `parking_lot` hands on as its own.
/// What it guards is hidden from the verifier.
#[verifier::external_type_specification]
#[verifier::external_body]
#[verifier::reject_recursive_types(R)]
#[verifier::reject_recursive_types(T)]
pub struct ExRwLock<R, T: ?Sized>(parking_lot::lock_api::RwLock<R, T>);

/// `RawRwLock` of the crate `parking_lot`, the first parameter of the lock
/// above. Nothing is said of it.
#[verifier::external_type_specification]
#[verifier::external_body]
pub struct ExRawRwLock(parking_lot::RawRwLock);

/// Calls `RwLock::new` of the crate `lock_api`, with the raw lock of
/// `parking_lot`, and puts the lock in an `Arc`: a new shared value with one
/// holder. Nothing is claimed of the result.
#[verifier::external_body]
pub(crate) fn share<T>(value: T) -> (shared: Arc<RwLock<T>>) {
    Arc::new(RwLock::new(value))
}

/// Calls `RwLock::read` of the crate `lock_api` and runs `reader` on the
/// value behind the lock, while no holder can change it. The contract claims
/// that the result is one that `reader` gives for some value: the one that it
/// found there. `reader` must not wait for `shared` itself.
#[verifier::external_body]
pub(crate) fn read_with<T, U, F: FnOnce(&T) -> U>(shared: &Arc<RwLock<T>>, reader: F) -> (out: U)
    requires
        forall|value: &T| reader.requires((value,)),
    ensures
        exists|value: &T| reader.ensures((value,), out),
{
    reader(&shared.read())
}

/// Calls `RwLock::write` of the crate `lock_api` and runs `update` on the
/// value behind the lock, while no other holder can read or change it.
/// Nothing is claimed of what the value holds afterwards. `update` must not
/// wait for `shared` itself.
#[verifier::external_body]
pub(crate) fn write_with<T, F: FnOnce(&mut T)>(shared: &Arc<RwLock<T>>, update: F)
    requires
        forall|value: &mut T| update.requires((value,)),
{
    update(&mut shared.write());
}

} // verus!
