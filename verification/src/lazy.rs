//! One-time initialization of a shared value, built on the spin lock.
//!
//! A [`SyncLazy`] starts uninitialized, holding only its initializer behind a
//! [`Spinlock`]. The first access checks the state without locking, takes the
//! lock, checks again — another context may have raced in between — and only
//! then runs the initializer, exactly once; every later access sees the value
//! that single run produced. The unlocked fast-path read is sound only
//! because the state is written at most once and read-only forever after.
//! The interleaved-execution argument that the initializer can never run
//! twice is made over the protocol model in [`crate::protocol`].

use vstd::prelude::*;
use crate::spinlock::Spinlock;

verus! {

/// A plain value slot: the one narrow place through which the lazy state is
/// written, kept as its own type so that every write to the once-written
/// state is visible as a call on it.
pub struct Cell<T> {
    data: T,
}

impl<T> Cell<T> {
    /// The stored value.
    pub closed spec fn value(self) -> T {
        self.data
    }

    /// A new cell holding `data`.
    pub fn new(data: T) -> (c: Self)
        ensures
            c.value() == data,
    {
        Cell { data }
    }

    /// Overwrites the stored value.
    pub fn set(&mut self, data: T)
        ensures
            final(self).value() == data,
    {
        self.data = data;
    }

    /// Reads the stored value.
    pub fn get(&self) -> (r: &T)
        ensures
            r == self.value(),
    {
        &self.data
    }

    /// Borrows the stored value for writing.
    pub fn get_mut(&mut self) -> (r: &mut T)
        ensures
            *r == old(self).value(),
            final(self).value() == *final(r),
    {
        &mut self.data
    }
}

/// A lazily-initialized value: uninitialized until the first access, then
/// initialized exactly once and never rolled back.
pub struct SyncLazy<T, F> {
    data: Cell<Option<T>>,
    init: Spinlock<F>,
}

impl<T, F> SyncLazy<T, F> {
    /// The lock guarding the initializer is well-formed and at rest.
    pub open spec fn wf(self) -> bool {
        &&& self.lock_ref().inv()
        &&& !self.lock_ref().is_locked()
    }

    /// The lock that protects the initializer.
    pub closed spec fn lock_ref(self) -> Spinlock<F> {
        self.init
    }

    /// Whether the one-time transition to the initialized state has happened.
    pub closed spec fn is_initialized(self) -> bool {
        self.data.value() is Some
    }

    /// The initialized value, meaningful once `is_initialized` holds.
    pub closed spec fn value(self) -> T {
        self.data.value()->0
    }

    /// The stored initializer, meaningful while the lock is free.
    pub open spec fn initializer(self) -> F {
        self.lock_ref().value()
    }

    /// A new, uninitialized instance that will run `f` on first access.
    pub fn new(f: F) -> (s: Self)
        ensures
            s.wf(),
            !s.is_initialized(),
            s.initializer() == f,
    {
        SyncLazy { data: Cell::new(None), init: Spinlock::new(f) }
    }
}

impl<T, F: Fn() -> T> SyncLazy<T, F> {
    /// Resolves the value, initializing on first access.
    ///
    /// The fast path reads the state without locking; if that read finds
    /// nothing, the lock is taken and the state checked once more before the
    /// initializer runs. Whatever path is taken, afterwards the value is the
    /// one the single initializer run produced, and every later call returns
    /// that same value untouched.
    pub fn force(&mut self) -> (r: &T)
        requires
            old(self).wf(),
            !old(self).is_initialized() ==> call_requires(old(self).initializer(), ()),
        ensures
            final(self).wf(),
            final(self).is_initialized(),
            r == final(self).value(),
            final(self).initializer() == old(self).initializer(),
            old(self).is_initialized() ==> final(self).value() == old(self).value(),
            !old(self).is_initialized() ==> call_ensures(
                old(self).initializer(),
                (),
                final(self).value(),
            ),
    {
        if self.data.get().is_none() {
            let init = self.init.lock();
            if self.data.get().is_none() {
                let value = (init.data)();
                self.data.set(Some(value));
            }
            init.release(&mut self.init);
        }
        match self.data.get() {
            Some(v) => v,
            None => unreached(),
        }
    }

    /// Resolves the value for writing, initializing on first access.
    ///
    /// Same protocol as [`Self::force`]; the caller gets the one initialized
    /// value to mutate in place, and the instance afterwards holds whatever
    /// the caller left behind the borrow.
    pub fn force_mut(&mut self) -> (r: &mut T)
        requires
            old(self).wf(),
            !old(self).is_initialized() ==> call_requires(old(self).initializer(), ()),
        ensures
            final(self).wf(),
            final(self).is_initialized(),
            final(self).value() == *final(r),
            final(self).initializer() == old(self).initializer(),
            old(self).is_initialized() ==> *r == old(self).value(),
            !old(self).is_initialized() ==> call_ensures(old(self).initializer(), (), *r),
    {
        if self.data.get().is_none() {
            let init = self.init.lock();
            if self.data.get().is_none() {
                let value = (init.data)();
                self.data.set(Some(value));
            }
            init.release(&mut self.init);
        }
        match self.data.get_mut() {
            Some(v) => v,
            None => unreached(),
        }
    }
}

} // verus!
