//! The mutual-exclusion lock and the shared pointer of the standard library,
//! as far as the shared window uses them.
//!
//! Nothing in this file is proved. What another thread left under a lock is
//! not known here, so the items below promise nothing about the value they
//! give access to; whatever is known of it comes from its type.

use vstd::prelude::*;
use std::sync::{Arc, Mutex, MutexGuard};

verus! {

/// A lock around a value, opaque to the verifier.
#[verifier::external_type_specification]
#[verifier::external_body]
#[verifier::reject_recursive_types(T)]
pub struct ExMutex<T: ?Sized>(Mutex<T>);

/// The right to use the value under a lock until dropped, opaque to the
/// verifier.
#[verifier::external_type_specification]
#[verifier::external_body]
#[verifier::reject_recursive_types(T)]
pub struct ExMutexGuard<'a, T: ?Sized + 'a>(MutexGuard<'a, T>);

/// `Arc::clone`: another pointer to the same value. Nothing is copied, so
/// what the two point to is one and the same.
#[verifier::external_body]
pub(crate) fn share<T>(pointer: &Arc<T>) -> (other: Arc<T>)
    ensures
        other == *pointer,
{
    Arc::clone(pointer)
}

/// `Mutex::new`: a lock that starts out free, around the given value.
#[verifier::external_body]
pub(crate) fn lock_around<T>(value: T) -> Mutex<T> {
    Mutex::new(value)
}

/// `Mutex::try_lock`: takes the lock if it is free and gives up at once if
/// it is not, without waiting. A lock that is held, or that was held by a
/// thread that panicked, gives `None`.
#[verifier::external_body]
pub(crate) fn try_acquire<'a, T>(lock: &'a Mutex<T>) -> Option<MutexGuard<'a, T>> {
    match lock.try_lock() {
        Ok(guard) => Some(guard),
        Err(_) => None,
    }
}

/// `MutexGuard::deref`: the value under the lock, to read.
#[verifier::external_body]
pub(crate) fn guarded<'a, 'b, T>(guard: &'a MutexGuard<'b, T>) -> &'a T {
    &**guard
}

/// `MutexGuard::deref_mut`: the value under the lock, to change.
#[verifier::external_body]
pub(crate) fn guarded_mut<'a, 'b, T>(guard: &'a mut MutexGuard<'b, T>) -> &'a mut T {
    &mut **guard
}

} // verus!
