use vstd::prelude::*;
use std::sync::Arc;
use std::sync::Mutex;
use std::sync::MutexGuard;

verus! {

/// `std::sync::Mutex`, visible to the verifier as an opaque type. The value
/// it protects is shared mutable state: whichever holder is inside the
/// critical section may change it, so nothing is stated about its contents.
#[verifier::external_type_specification]
#[verifier::external_body]
#[verifier::reject_recursive_types(T)]
pub struct ExMutex<T: ?Sized>(Mutex<T>);

/// `std::sync::MutexGuard`, the witness that its holder is inside the
/// critical section of one `Mutex`. Also opaque: the protected value is
/// reached only through `deref_mut` below.
#[verifier::external_type_specification]
#[verifier::external_body]
#[verifier::reject_recursive_types(T)]
pub struct ExMutexGuard<'a, T: ?Sized + 'a>(MutexGuard<'a, T>);

/// Relies on `std::sync::MutexGuard`'s `DerefMut`: while the guard lives,
/// its holder has exclusive access to the protected value. The guard is
/// opaque, so the value behind the returned reference is unconstrained: it is
/// whatever the shared state holds when the lock is acquired.
pub assume_specification<'a, 'b, T: ?Sized>[ <MutexGuard<'a, T> as core::ops::DerefMut>::deref_mut ](
    g: &'b mut MutexGuard<'a, T>,
) -> &'b mut T
;

/// Relies on `std::sync::Mutex::lock`: blocks until the lock is available,
/// then returns the guard for the critical section; when a prior holder left
/// the lock poisoned, returns the poison failure's description instead.
/// Which outcome occurs depends on the other holders of the same cell, so the
/// contract fixes neither.
#[verifier::external_body]
pub(crate) fn lock_cell<'a, T>(cell: &'a Arc<Mutex<T>>) -> (r: Result<MutexGuard<'a, T>, String>) {
    match cell.lock() {
        Ok(guard) => Ok(guard),
        Err(err) => Err(err.to_string()),
    }
}

} // verus!
