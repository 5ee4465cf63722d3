//! The standard library's lock, condition variable and shared pointer, as far
//! as the channel uses them.
//!
//! Nothing in this file is proved. Each item states what the verifier is
//! asked to take on trust about one function or type of `std::sync`.
//!
//! A lock hides what it protects: another thread may have changed it since
//! this thread last looked. So no contract here says anything about the
//! protected state. Code that holds the lock gets a plain `&mut Inner<T>` and
//! has to cope with every value it may find there.
use crate::state::Inner;
use std::sync::{Arc, Condvar, Mutex, MutexGuard};
use vstd::prelude::*;

verus! {

/// `std::sync::Mutex`, opaque to the verifier.
#[verifier::external_type_specification]
#[verifier::external_body]
#[verifier::reject_recursive_types(T)]
pub struct ExMutex<T: ?Sized>(Mutex<T>);

/// `std::sync::MutexGuard`, opaque to the verifier.
#[verifier::external_type_specification]
#[verifier::external_body]
#[verifier::reject_recursive_types(T)]
pub struct ExMutexGuard<'a, T: ?Sized + 'a>(MutexGuard<'a, T>);

/// `std::sync::Condvar`, opaque to the verifier.
#[verifier::external_type_specification]
#[verifier::external_body]
pub struct ExCondvar(Condvar);

/// `Mutex::new` puts a value behind a new lock. Nothing is claimed of the
/// lock that comes back.
pub assume_specification<T>[ Mutex::<T>::new ](t: T) -> (mutex: Mutex<T>)
;

/// `Condvar::new` makes a condition variable on which nobody waits. Nothing
/// is claimed of it.
pub assume_specification[ Condvar::new ]() -> (condvar: Condvar)
;

/// `Mutex::lock`: blocks until the lock is free and returns its guard.
///
/// The claim is that the call returns a guard without unwinding. `lock`
/// reports a poisoned lock as an error that still carries the guard, and the
/// guard is taken from it: a lock is poisoned when a thread unwinds while it
/// holds the guard, and the critical sections of this crate are the verified
/// steps of `Inner`, which do not panic and run no caller's code. The
/// standard library may panic or deadlock if the calling thread already holds
/// the lock; no function of this crate locks while it holds a guard.
#[verifier::external_body]
pub(crate) fn lock<'a, T>(mutex: &'a Mutex<Inner<T>>) -> (guard: MutexGuard<'a, Inner<T>>)
    opens_invariants none
    no_unwind
{
    match mutex.lock() {
        Ok(guard) => guard,
        Err(poisoned) => poisoned.into_inner(),
    }
}

/// `DerefMut::deref_mut` of `MutexGuard`: the protected state, for as long as
/// the guard is borrowed. Nothing is claimed of the state that is found.
#[verifier::external_body]
pub(crate) fn protected<'a, 'b, T>(guard: &'a mut MutexGuard<'b, Inner<T>>) -> (inner: &'a mut Inner<
    T,
>)
    opens_invariants none
    no_unwind
{
    &mut **guard
}

/// `Condvar::wait_while`: gives the lock up and sleeps until the protected
/// state no longer asks for waiting, looking at it again after every wake-up,
/// then returns with the lock held.
///
/// The standard library promises that `Inner::must_wait` is false of the
/// state under the guard that comes back. The contract cannot say so, since a
/// guard shows nothing of what it protects, and the caller does not rely on
/// it. A poisoned lock is treated as in `lock`. The standard library may
/// panic if one condition variable is used with two locks; `Shared` pairs
/// each with exactly one.
#[verifier::external_body]
pub(crate) fn wait_until_ready<'a, T>(
    condvar: &Condvar,
    guard: MutexGuard<'a, Inner<T>>,
) -> (ready: MutexGuard<'a, Inner<T>>) {
    match condvar.wait_while(guard, |inner| inner.must_wait()) {
        Ok(guard) => guard,
        Err(poisoned) => poisoned.into_inner(),
    }
}

/// `Condvar::notify_one`: wakes one thread that sleeps on the condition
/// variable, if there is one. The claim is that the call returns without
/// unwinding.
#[verifier::external_body]
pub(crate) fn notify(condvar: &Condvar)
    opens_invariants none
    no_unwind
{
    condvar.notify_one();
}

/// `Arc::clone`: one more pointer to the same shared value. The standard
/// library aborts the process rather than let the number of pointers exceed
/// `isize::MAX`.
#[verifier::external_body]
pub(crate) fn share<S>(shared: &Arc<S>) -> (twin: Arc<S>)
    ensures
        twin == shared,
{
    Arc::clone(shared)
}

} // verus!
