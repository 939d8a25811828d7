//! The mutex and the condition variables of the standard library, as far as
//! the engine uses them.
//!
//! Nothing in this module is proved. Each item states what the standard
//! library documents of one function, or declares one of its types.

use vstd::prelude::*;
use std::sync::{Condvar, LockResult, Mutex, MutexGuard, PoisonError};
use crate::state::{Admission, State, Waiter};

verus! {

/// `std::sync::Mutex`, opaque to the verifier.
#[verifier::external_type_specification]
#[verifier::external_body]
#[verifier::reject_recursive_types(T)]
pub struct ExMutex<T: ?Sized>(Mutex<T>);

/// `std::sync::MutexGuard`, opaque to the verifier.
#[verifier::external_type_specification]
#[verifier::external_body]
#[verifier::reject_recursive_types(T)]
pub struct ExMutexGuard<'a, T: ?Sized + 'a>(MutexGuard<'a, T>);

/// `std::sync::Condvar`, opaque to the verifier.
#[verifier::external_type_specification]
#[verifier::external_body]
pub struct ExCondvar(Condvar);

/// `std::sync::PoisonError`, opaque to the verifier.
#[verifier::external_type_specification]
#[verifier::external_body]
#[verifier::reject_recursive_types(T)]
pub struct ExPoisonError<T>(PoisonError<T>);

/// `Condvar::new` makes a condition variable. Nothing is claimed of it.
pub assume_specification[Condvar::new]() -> (condvar: Condvar);

/// `Mutex::lock` blocks until the mutex is free and hands out its guard, inside
/// `Err` if an earlier holder panicked. Nothing is claimed of what the guard
/// holds: other threads may have changed it.
///
/// A thread that holds the guard already must not call it again. The engine
/// never does: no guard outlives the operation that took it.
pub assume_specification<T: ?Sized>[Mutex::<T>::lock](
    mutex: &Mutex<T>,
) -> (result: LockResult<MutexGuard<'_, T>>);

/// `PoisonError::into_inner` hands out the guard that a poisoned lock result
/// carries. Nothing is claimed of it.
pub assume_specification<T>[PoisonError::<T>::into_inner](error: PoisonError<T>) -> (inner: T);

/// `Condvar::notify_all` wakes every thread that waits on the condition
/// variable. It returns nothing.
pub assume_specification[Condvar::notify_all](condvar: &Condvar);

/// The admission state that a mutex was made with. It says nothing of what
/// the mutex holds later on.
pub uninterp spec fn made_with(mutex: Mutex<State>) -> Admission;

/// `Mutex::new`: a new, unlocked mutex around `state`.
#[verifier::external_body]
pub(crate) fn new_mutex(state: State) -> (mutex: Mutex<State>)
    ensures
        made_with(mutex) == state@,
{
    Mutex::new(state)
}

/// The admission state that a guard gives access to.
///
/// While a thread holds the guard, no other thread can reach the state, so
/// between two uses of the guard the state is what the last use left.
pub uninterp spec fn guarded(guard: MutexGuard<State>) -> Admission;

/// `DerefMut::deref_mut` of `MutexGuard`: the state behind the guard, to read
/// and to change. The guard holds afterwards what the reference was left with.
#[verifier::external_body]
pub(crate) fn state_mut<'a, 'b>(guard: &'a mut MutexGuard<'b, State>) -> (state: &'a mut State)
    ensures
        state@ == guarded(*old(guard)),
        guarded(*final(guard)) == final(state)@,
{
    &mut **guard
}

/// `Condvar::wait_while`: gives the mutex up and sleeps until woken, as long
/// as the state says that `who` has to wait. When it returns `Ok`, the last
/// look at the state found that `who` need not wait. `Err` means that the
/// mutex was poisoned on waking; `who` may then still have to wait.
///
/// A condition variable must only ever be used with one and the same mutex.
/// The engine keeps to that: its two condition variables are private and
/// only ever meet its own mutex.
#[verifier::external_body]
pub(crate) fn wait_while<'a>(
    condvar: &Condvar,
    guard: MutexGuard<'a, State>,
    who: Waiter,
) -> (result: LockResult<MutexGuard<'a, State>>)
    ensures
        result matches Ok(woken) ==> !guarded(woken).must_wait(who),
{
    condvar.wait_while(guard, |state: &mut State| state.must_wait(who))
}

} // verus!
