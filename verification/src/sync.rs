//! Sharing a value between handles: `std::sync::Arc` and `std::sync::Mutex`,
//! as far as the channel needs them.
//!
//! Proofs see a mutex and its guard as opaque values. What a guard gives
//! access to depends on what every holder of the mutex did before, so
//! nothing is assumed about it.

use std::sync::Arc;
use std::sync::Mutex;
use std::sync::MutexGuard;
use vstd::prelude::*;

verus! {

/// `std::sync::Mutex`.
#[verifier::external_type_specification]
#[verifier::external_body]
#[verifier::reject_recursive_types(T)]
pub struct ExMutex<T: ?Sized>(Mutex<T>);

/// `std::sync::MutexGuard`.
#[verifier::external_type_specification]
#[verifier::external_body]
#[verifier::reject_recursive_types(T)]
pub struct ExMutexGuard<'a, T: ?Sized + 'a>(MutexGuard<'a, T>);

/// `Mutex::new` wraps a value in a mutex that nobody holds.
pub assume_specification<T>[ Mutex::<T>::new ](value: T) -> (mutex: Mutex<T>);

/// `Arc::clone`: one more reference to the same allocation, so that both
/// references denote the same shared value.
#[verifier::external_body]
pub(crate) fn share<T>(shared: &Arc<T>) -> (other: Arc<T>)
    ensures
        other == *shared,
{
    Arc::clone(shared)
}

/// `Mutex::lock` waits until the mutex is free and returns its guard; the
/// mutex is released when the guard is dropped. A mutex that was poisoned by
/// the panic of an earlier holder is entered all the same, through
/// `PoisonError::into_inner`. A thread that holds the guard already would
/// wait for itself.
#[verifier::external_body]
pub(crate) fn lock<T>(mutex: &Mutex<T>) -> (guard: MutexGuard<'_, T>) {
    match mutex.lock() {
        Ok(guard) => guard,
        Err(poisoned) => poisoned.into_inner(),
    }
}

/// `MutexGuard::deref`: the value that the guard protects.
#[verifier::external_body]
pub(crate) fn held<'a, T>(guard: &'a MutexGuard<'_, T>) -> (value: &'a T) {
    &**guard
}

/// `MutexGuard::deref_mut`: the value that the guard protects, to be changed
/// in place.
#[verifier::external_body]
pub(crate) fn held_mut<'a, T>(guard: &'a mut MutexGuard<'_, T>) -> (value: &'a mut T) {
    &mut **guard
}

} // verus!
