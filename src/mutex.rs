//! A spinning mutual-exclusion lock around one payload.
//!
//! `lock` busy-waits until it has turned the lock's flag from clear to held
//! by an atomic compare-and-exchange, then hands out a guard that owns the
//! payload. The payload goes back, and the flag is cleared, when the guard is
//! released through `unlock` or `MutexGuard::release`; `with_lock` does both
//! around a closure, so that the lock is released on every path by which the
//! closure returns.
//!
//! There is no `try_lock`, no timeout, no fairness among waiting contexts and
//! no re-entrancy: a context that asks again for a lock it already holds (an
//! interrupt handler that fires while the code it interrupted holds the same
//! lock, for instance) spins forever. Code that shares a lock with an
//! interrupt handler must keep interrupts disabled for as long as it holds
//! the lock.

use vstd::prelude::*;
use vstd::rwlock::{RwLock, WriteHandle};

verus! {

/// A spinlock that owns one value of type `T`. Every payload it holds meets
/// the condition given when it was made.
#[verifier::reject_recursive_types(T)]
pub struct Mutex<T> {
    lock: RwLock<T, spec_fn(T) -> bool>,
}

/// Exclusive access to the payload of a locked `Mutex`.
#[verifier::reject_recursive_types(T)]
pub struct MutexGuard<'a, T> {
    inner: T,
    handle: WriteHandle<'a, T, spec_fn(T) -> bool>,
}

impl<T> Mutex<T> {
    /// The condition that every payload of this mutex meets.
    pub closed spec fn payload_condition(&self) -> spec_fn(T) -> bool {
        self.lock.pred()
    }

    /// A mutex holding `inner`, with its flag clear and no condition on its
    /// payloads.
    pub fn new(inner: T) -> (r: Self)
        ensures
            r.payload_condition() == (|v: T| true),
    {
        Mutex { lock: RwLock::new(inner, Ghost(|v: T| true)) }
    }

    /// A mutex holding `inner`, with its flag clear, whose payloads must all
    /// meet `condition`.
    pub fn with_condition(inner: T, Ghost(condition): Ghost<spec_fn(T) -> bool>) -> (r: Self)
        requires
            condition(inner),
        ensures
            r.payload_condition() == condition,
    {
        Mutex { lock: RwLock::new(inner, Ghost(condition)) }
    }

    /// Waits until the lock is free, takes it and returns the guard that
    /// holds the payload.
    pub fn lock(&self) -> (r: MutexGuard<'_, T>)
        ensures
            r.mutex() == *self,
            self.payload_condition()(r.value()),
    {
        let (inner, handle) = self.lock.acquire_write();
        MutexGuard { inner, handle }
    }

    /// Puts the guard's payload back and clears the flag.
    pub fn unlock(&self, guard: MutexGuard<'_, T>)
        requires
            guard.mutex() == *self,
            self.payload_condition()(guard.value()),
    {
        guard.release();
    }

    /// Takes the lock, hands the payload to `f`, stores the first result of
    /// `f` as the new payload, releases the lock and returns the second.
    pub fn with_lock<R, F: FnOnce(T) -> (T, R)>(&self, f: F) -> (r: R)
        requires
            forall|v: T| self.payload_condition()(v) ==> f.requires((v,)),
            forall|v: T, out: (T, R)|
                self.payload_condition()(v) && #[trigger] f.ensures((v,), out) ==> self.payload_condition()(out.0),
        ensures
            exists|v: T, w: T| self.payload_condition()(v) && f.ensures((v,), (w, r)),
    {
        let (inner, handle) = self.lock.acquire_write();
        let (next, r) = f(inner);
        handle.release_write(next);
        r
    }
}

impl<'a, T> MutexGuard<'a, T> {
    /// The mutex this guard belongs to.
    pub closed spec fn mutex(&self) -> Mutex<T> {
        Mutex { lock: self.handle.rwlock() }
    }

    /// The payload as the guard holds it now.
    pub closed spec fn value(&self) -> T {
        self.inner
    }

    /// Shared access to the payload.
    pub fn get(&self) -> (r: &T)
        ensures
            *r == self.value(),
    {
        &self.inner
    }

    /// Exclusive access to the payload.
    pub fn get_mut(&mut self) -> (r: &mut T)
        ensures
            *r == old(self).value(),
            final(self).value() == *final(r),
            final(self).mutex() == old(self).mutex(),
    {
        &mut self.inner
    }

    /// Puts the payload back into the mutex and clears its flag.
    pub fn release(self)
        requires
            self.mutex().payload_condition()(self.value()),
    {
        let MutexGuard { inner, handle } = self;
        handle.release_write(inner);
    }
}

} // verus!
