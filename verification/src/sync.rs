//! The parts of `std::sync` that the channel is built on, as far as the
//! verifier has to know them. Nothing is proved here and next to nothing is
//! claimed: what a lock holds depends on what other threads did, so no
//! contract below says anything about it. What the channel guarantees is
//! proved of [`ChannelState`], for every state that a lock may hand over.

use crate::state::ChannelState;
use std::ops::DerefMut;
use std::sync::{Condvar, LockResult, Mutex, MutexGuard, PoisonError, TryLockError, TryLockResult};
use vstd::prelude::*;

verus! {

/// `std::sync::Mutex`, opaque to the verifier.
#[verifier::external_type_specification]
#[verifier::external_body]
#[verifier::reject_recursive_types(T)]
pub struct ExMutex<T: ?Sized>(Mutex<T>);

/// `std::sync::MutexGuard`, opaque to the verifier.
#[verifier::external_type_specification]
#[verifier::external_body]
#[verifier::reject_recursive_types(T)]
pub struct ExMutexGuard<'a, T: ?Sized + 'a>(MutexGuard<'a, T>);

/// `std::sync::Condvar`, opaque to the verifier.
#[verifier::external_type_specification]
#[verifier::external_body]
pub struct ExCondvar(Condvar);

/// `std::sync::PoisonError`, opaque to the verifier.
#[verifier::external_type_specification]
#[verifier::external_body]
#[verifier::reject_recursive_types(T)]
pub struct ExPoisonError<T>(PoisonError<T>);

/// `std::sync::TryLockError`, with its two variants `Poisoned` and
/// `WouldBlock` for verified code to tell apart.
#[verifier::external_type_specification]
#[verifier::reject_recursive_types(T)]
pub struct ExTryLockError<T>(TryLockError<T>);

/// `Mutex::new` makes a lock around `t`. Nothing is claimed of it.
pub assume_specification<T>[ Mutex::<T>::new ](t: T) -> (m: Mutex<T>);

/// `Condvar::new` makes a condition variable. Nothing is claimed of it.
pub assume_specification[ Condvar::new ]() -> (c: Condvar);

/// `Mutex::lock` blocks until the lock is free and returns its guard, or a
/// `PoisonError` around the guard if a thread panicked while it held the
/// lock. Nothing is claimed of what the guard gives access to. No function
/// of this crate calls it while the calling thread holds the same lock.
pub assume_specification<'a, T: ?Sized>[ Mutex::<T>::lock ](m: &'a Mutex<T>) -> (r: LockResult<
    MutexGuard<'a, T>,
>);

/// `Mutex::try_lock` returns the guard if the lock is free at this moment
/// and an error otherwise, without waiting. Nothing is claimed of which.
pub assume_specification<'a, T: ?Sized>[ Mutex::<T>::try_lock ](m: &'a Mutex<T>) -> (r:
    TryLockResult<MutexGuard<'a, T>>);

/// `PoisonError::into_inner` gives up the guard that came with the error.
/// Nothing is claimed of it.
pub assume_specification<T>[ PoisonError::<T>::into_inner ](e: PoisonError<T>) -> (t: T);

/// `MutexGuard::deref_mut` lends out what the lock guards. Nothing is
/// claimed of the value found there: another thread may have left anything
/// that the type allows.
pub assume_specification<'a, 'b, T: ?Sized>[ <MutexGuard<'a, T> as DerefMut>::deref_mut ](
    g: &'b mut MutexGuard<'a, T>,
) -> (t: &'b mut T);

/// `Condvar::notify_one` wakes one thread that waits on the condition
/// variable, if there is one. It returns nothing.
pub assume_specification[ Condvar::notify_one ](c: &Condvar);

/// `Condvar::notify_all` wakes every thread that waits on the condition
/// variable. It returns nothing.
pub assume_specification[ Condvar::notify_all ](c: &Condvar);

/// `Condvar::wait_while` gives up the lock and sleeps, again and again, for
/// as long as the channel is idle when it looks, and returns the guard once
/// it is not; a poisoned lock ends the wait with an error. Nothing is
/// claimed of the result: the caller looks at the state once more. Each
/// condition variable of this crate is only ever used with the lock that
/// it was made beside.
#[verifier::external_body]
pub(crate) fn wait_while_idle<'a, T>(
    ready: &Condvar,
    guard: MutexGuard<'a, ChannelState<T>>,
) -> (r: LockResult<MutexGuard<'a, ChannelState<T>>>) {
    ready.wait_while(guard, |state| state.is_idle())
}

} // verus!
