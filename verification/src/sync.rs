//! Synchronization between harts: a spinlock protecting shared data and a
//! lock-free counter.

use vstd::prelude::*;
use vstd::wrapping::u64_specs;
use core::sync::atomic::{AtomicU64, Ordering};
use vstd::rwlock::{RwLock, WriteHandle};

verus! {

/// The predicate of a spinlock's contents: any value may be stored.
pub open spec fn any_value<T>() -> spec_fn(T) -> bool {
    |v: T| true
}

/// A lock protecting shared data across harts: acquiring it spins until no
/// other holder remains, and gives exclusive access to the data until the
/// holder unlocks it.
#[verifier::reject_recursive_types(T)]
pub struct Spinlock<T> {
    cell: RwLock<T, spec_fn(T) -> bool>,
}

/// Exclusive access to the data of a [`Spinlock`], until `unlock`.
#[verifier::reject_recursive_types(T)]
pub struct SpinlockGuard<'a, T> {
    value: T,
    handle: WriteHandle<'a, T, spec_fn(T) -> bool>,
}

impl<T> Spinlock<T> {
    #[verifier::type_invariant]
    spec fn accepts_any_value(self) -> bool {
        self.cell.pred() == any_value::<T>()
    }

    /// A lock holding `data`.
    pub fn new(data: T) -> (s: Self) {
        Spinlock { cell: RwLock::new(data, Ghost(any_value::<T>())) }
    }

    /// Acquires the lock, spinning until it is free, and hands out the data.
    pub fn lock(&self) -> (g: SpinlockGuard<'_, T>)
        ensures
            g.lock() == *self,
    {
        proof {
            use_type_invariant(self);
        }
        let (value, handle) = self.cell.acquire_write();
        SpinlockGuard { value, handle }
    }
}

impl<T> From<T> for Spinlock<T> {
    /// A lock holding `data`, as [`Spinlock::new`].
    fn from(data: T) -> (s: Self) {
        Spinlock::new(data)
    }
}

impl<T> vstd::std_specs::convert::FromSpecImpl<T> for Spinlock<T> {
    /// A lock's contents are not observable without acquiring it, so the
    /// conversion promises nothing beyond producing a lock.
    open spec fn obeys_from_spec() -> bool {
        false
    }

    open spec fn from_spec(v: T) -> Spinlock<T> {
        arbitrary()
    }
}

impl<'a, T> SpinlockGuard<'a, T> {
    #[verifier::type_invariant]
    spec fn belongs_to_a_lock(self) -> bool {
        self.handle.rwlock().pred() == any_value::<T>()
    }

    /// The lock this guard holds.
    pub closed spec fn lock(self) -> Spinlock<T> {
        Spinlock { cell: self.handle.rwlock() }
    }

    /// The protected data as currently held.
    pub closed spec fn data(self) -> T {
        self.value
    }

    /// Reads the protected data.
    pub fn get(&self) -> (v: &T)
        ensures
            *v == self.data(),
    {
        &self.value
    }

    /// Replaces the protected data.
    pub fn set(&mut self, value: T)
        ensures
            final(self).data() == value,
            final(self).lock() == old(self).lock(),
    {
        proof {
            use_type_invariant(&*self);
        }
        self.value = value;
    }

    /// Stores the data back and releases the lock.
    pub fn unlock(self) {
        proof {
            use_type_invariant(&self);
        }
        let SpinlockGuard { value, handle } = self;
        handle.release_write(value);
    }
}

/// A counter that several harts update without a lock.
pub struct AtomicCounter {
    value: AtomicU64,
}

/// The value after adding `delta` to `previous`, wrapping like the atomic
/// addition.
pub fn value_after_add(previous: u64, delta: u64) -> (r: u64)
    ensures
        r == u64_specs::wrapping_add(previous, delta),
{
    previous.wrapping_add(delta)
}

/// The value after subtracting `delta` from `previous`, wrapping like the
/// atomic subtraction.
pub fn value_after_sub(previous: u64, delta: u64) -> (r: u64)
    ensures
        r == u64_specs::wrapping_sub(previous, delta),
{
    previous.wrapping_sub(delta)
}

impl AtomicCounter {
    /// A counter starting at 0.
    pub fn new() -> (c: Self) {
        AtomicCounter { value: AtomicU64::new(0) }
    }

    /// A counter starting at `value`.
    pub fn with_value(value: u64) -> (c: Self) {
        AtomicCounter { value: AtomicU64::new(value) }
    }

    /// Adds one and returns the value the counter then holds, as seen by
    /// this update: whatever other harts did before, it is one more than
    /// the value this update replaced.
    pub fn increment(&self) -> (r: u64) {
        let previous = self.value.fetch_add(1, Ordering::AcqRel);
        value_after_add(previous, 1)
    }

    /// Subtracts one and returns the value the counter then holds, as seen by
    /// this update.
    pub fn decrement(&self) -> (r: u64) {
        let previous = self.value.fetch_sub(1, Ordering::AcqRel);
        value_after_sub(previous, 1)
    }

    /// The current value (which other harts may change at any time).
    pub fn get(&self) -> (r: u64) {
        self.value.load(Ordering::Acquire)
    }

    /// Sets the counter.
    pub fn set(&self, value: u64) {
        self.value.store(value, Ordering::Release);
    }

    /// Adds `delta` and returns the value the counter then holds, as seen by
    /// this update.
    pub fn add(&self, delta: u64) -> (r: u64) {
        let previous = self.value.fetch_add(delta, Ordering::AcqRel);
        value_after_add(previous, delta)
    }

    /// Subtracts `delta` and returns the value the counter then holds, as
    /// seen by this update.
    pub fn sub(&self, delta: u64) -> (r: u64) {
        let previous = self.value.fetch_sub(delta, Ordering::AcqRel);
        value_after_sub(previous, delta)
    }
}

} // verus!
