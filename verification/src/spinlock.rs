//! Busy-wait mutual exclusion around an owned value.
//!
//! The lock state is a single flag, flipped free-to-held by a compare-and-swap
//! attempt and held-to-free on release. While the lock is held, the protected
//! value lives in the guard and is reachable nowhere else; releasing the guard
//! hands it back. Known hazards, by design: no fairness, no deadlock
//! detection, and acquiring again from the context that already holds the lock
//! never returns. The interleaved-execution argument that no two contexts can
//! hold the lock at once is made over the protocol model in [`crate::protocol`].

use vstd::prelude::*;

verus! {

/// A spin lock owning the value it protects. When free, the value rests
/// inside; when held, it has moved out into the [`SpinlockGuard`].
pub struct Spinlock<T> {
    locked: bool,
    data: Option<T>,
}

/// Exclusive access to the protected value, granted by [`Spinlock::lock`] and
/// given up through [`SpinlockGuard::release`].
pub struct SpinlockGuard<T> {
    /// The protected value, reachable only through this guard while the lock
    /// is held.
    pub data: T,
}

impl<T> Spinlock<T> {
    /// The lock flag is up exactly while the protected value is out with a
    /// guard.
    pub closed spec fn inv(self) -> bool {
        self.locked <==> self.data is None
    }

    /// Whether the lock is held.
    pub closed spec fn is_locked(self) -> bool {
        self.locked
    }

    /// The protected value, meaningful while the lock is free.
    pub closed spec fn value(self) -> T {
        self.data->0
    }

    /// A new lock in the free state, owning `data`.
    pub fn new(data: T) -> (s: Self)
        ensures
            s.inv(),
            !s.is_locked(),
            s.value() == data,
    {
        Spinlock { locked: false, data: Some(data) }
    }

    /// Reads the protected value while the lock is at rest.
    pub fn get(&self) -> (r: &T)
        requires
            self.inv(),
            !self.is_locked(),
        ensures
            r == self.value(),
    {
        match &self.data {
            Some(v) => v,
            None => unreached(),
        }
    }

    /// One compare-and-swap attempt: the flag goes up, and the attempt
    /// succeeded exactly if it was down before.
    fn try_acquire(&mut self) -> (acquired: bool)
        ensures
            final(self).locked,
            final(self).data == old(self).data,
            acquired == !old(self).locked,
    {
        let was_locked = self.locked;
        self.locked = true;
        !was_locked
    }

    /// Spins until the flag flips free-to-held, then moves the protected
    /// value into the returned guard.
    ///
    /// A context that already holds this lock and acquires again spins
    /// forever; that call is excluded here, since a verified caller must not
    /// deadlock.
    pub fn lock(&mut self) -> (g: SpinlockGuard<T>)
        requires
            old(self).inv(),
            !old(self).is_locked(),
        ensures
            final(self).inv(),
            final(self).is_locked(),
            g.data == old(self).value(),
    {
        loop
            invariant_except_break
                !self.locked,
                self.data == old(self).data,
            ensures
                self.locked,
                self.data == old(self).data,
            decreases 0int,
        {
            if self.try_acquire() {
                break;
            }
        }
        let taken = self.data.take();
        SpinlockGuard { data: taken.unwrap() }
    }
}

impl<T> SpinlockGuard<T> {
    /// Hands the protected value back and resets the lock flag to free.
    /// Release is explicit here — consuming the guard — so a holder calls it
    /// exactly once, on every exit path out of the critical section.
    pub fn release(self, lock: &mut Spinlock<T>)
        requires
            old(lock).inv(),
            old(lock).is_locked(),
        ensures
            final(lock).inv(),
            !final(lock).is_locked(),
            final(lock).value() == self.data,
    {
        lock.data = Some(self.data);
        lock.locked = false;
    }
}

} // verus!
