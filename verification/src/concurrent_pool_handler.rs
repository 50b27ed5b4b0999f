use vstd::prelude::*;
use std::sync::Arc;
use std::sync::LockResult;
use std::sync::PoisonError;
use std::sync::RwLock;
use std::sync::RwLockReadGuard;
use std::sync::RwLockWriteGuard;
use std::sync::TryLockError;
use std::sync::TryLockResult;
use crate::counts::should_recycle;
use crate::pool_object::Recyclable;

verus! {

#[verifier::external_type_specification]
#[verifier::external_body]
#[verifier::reject_recursive_types(T)]
pub struct ExRwLock<T: ?Sized>(RwLock<T>);

#[verifier::external_type_specification]
#[verifier::external_body]
#[verifier::reject_recursive_types(T)]
pub struct ExRwLockReadGuard<'a, T: ?Sized>(RwLockReadGuard<'a, T>);

#[verifier::external_type_specification]
#[verifier::external_body]
#[verifier::reject_recursive_types(T)]
pub struct ExRwLockWriteGuard<'a, T: ?Sized + 'a>(RwLockWriteGuard<'a, T>);

#[verifier::external_type_specification]
#[verifier::external_body]
#[verifier::reject_recursive_types(T)]
pub struct ExPoisonError<T>(PoisonError<T>);

#[verifier::external_type_specification]
#[verifier::external_body]
#[verifier::reject_recursive_types(T)]
pub struct ExTryLockError<T>(TryLockError<T>);

/// A shared handle to one slot of an [`ArcPool`](crate::ArcPool), for use
/// across threads.
///
/// The payload sits in a reader-writer lock — any number of concurrent
/// readers, or one exclusive writer — and the lock sits in an `Arc`, so the
/// pool and any number of external holders, on any thread, can own the slot
/// together.  The `Arc`'s strong reference count is the sole source of
/// truth for whether the slot is in use: a count of one means only the pool
/// holds it (the slot is free); a count of two or more means an external
/// holder exists (the slot is checked out).  Cloning a handle is the
/// checkout mechanism, and [`ArcHandle::drop_handle`] is the release
/// protocol that recycles the payload when the last external holder lets
/// go.
#[derive(Debug)]
#[verifier::reject_recursive_types(T)]
pub struct ArcHandle<T: Recyclable>(pub Arc<RwLock<T>>);

/// Relies on `std::sync::Arc::strong_count`: the number of live `Arc`
/// pointers sharing ownership of the slot's lock.  The count is at least
/// one, since the handle passed in holds one such pointer.
#[verifier::external_body]
pub(crate) fn arc_strong_count<T: Recyclable>(handle: &ArcHandle<T>) -> (r: usize)
    ensures
        r >= 1,
{
    Arc::strong_count(&handle.0)
}

/// Relies on `std::sync::RwLock::new`: wraps a payload into a fresh,
/// unlocked, unpoisoned lock.
#[verifier::external_body]
fn rwlock_new<T: Recyclable>(item: T) -> (r: RwLock<T>) {
    RwLock::new(item)
}

/// Relies on `std::sync::RwLockWriteGuard`'s `DerefMut` implementation:
/// exclusive access to the payload that the guard protects.
#[verifier::external_body]
fn write_guard_deref_mut<'a, 'b, T: Recyclable>(
    guard: &'a mut RwLockWriteGuard<'b, T>,
) -> (r: &'a mut T) {
    &mut **guard
}

impl<T: Recyclable> ArcHandle<T> {
    /// Wrap a freshly constructed payload into a new slot with itself as
    /// the only owner.
    pub fn new(item: T) -> Self {
        ArcHandle(Arc::new(rwlock_new(item)))
    }

    /// The shared pointer to this slot's lock, for reference-count
    /// introspection.
    pub fn as_ref(&self) -> (r: &Arc<RwLock<T>>)
        ensures
            *r == self.0,
    {
        &self.0
    }

    /// Take shared read access to the payload, blocking until it is
    /// available.
    ///
    /// This forwards `RwLock::read`: it fails if the lock is poisoned,
    /// that is, if an earlier exclusive holder panicked; the guard is still
    /// reachable through the error.
    #[verifier::external_body]
    pub fn read<'a>(&'a self) -> LockResult<RwLockReadGuard<'a, T>> {
        self.0.read()
    }

    /// Take shared read access to the payload without blocking: fail
    /// immediately if the lock is currently held exclusively or poisoned.
    ///
    /// This forwards `RwLock::try_read`, which never panics.
    #[verifier::external_body]
    pub fn try_read<'a>(&'a self) -> TryLockResult<RwLockReadGuard<'a, T>> {
        self.0.try_read()
    }

    /// Take exclusive write access to the payload, blocking until it is
    /// available.
    ///
    /// This forwards `RwLock::write`: it fails if the lock is poisoned;
    /// the guard is still reachable through the error.
    #[verifier::external_body]
    pub fn write<'a>(&'a self) -> LockResult<RwLockWriteGuard<'a, T>> {
        self.0.write()
    }

    /// Take exclusive write access to the payload without blocking: fail
    /// immediately if the lock is currently held or poisoned.
    ///
    /// This forwards `RwLock::try_write`, which never panics.
    #[verifier::external_body]
    pub fn try_write<'a>(&'a self) -> TryLockResult<RwLockWriteGuard<'a, T>> {
        self.0.try_write()
    }

    /// Whether an earlier exclusive holder panicked while holding the
    /// lock, leaving the payload state suspect.
    ///
    /// This forwards `RwLock::is_poisoned`.
    #[verifier::external_body]
    pub fn is_poisoned(&self) -> bool {
        self.0.is_poisoned()
    }

    /// The release protocol, run for one observation of the strong
    /// reference count: when `count` reads two — the releasing handle
    /// itself plus the pool's own — take exclusive access to the payload
    /// non-blockingly and reinitialize it to its canonical fresh state;
    /// for any other reading, do nothing.  The decision runs through
    /// [`should_recycle`](crate::should_recycle).
    ///
    /// This is the decision half of [`ArcHandle::drop_handle`], with the
    /// observation made an explicit argument, so that the contract pins
    /// the outcome for each value of it: the handle itself is never
    /// changed, and the call cannot fail unless recycling was warranted.
    /// The reset itself cannot be stated: the payload sits behind the
    /// lock, which the specification sees as opaque.  When an error comes
    /// back — the lock was contended or poisoned at release time — the
    /// payload is left as it is.
    pub fn recycle_if_last(&mut self, count: usize) -> (r: Result<
        (),
        TryLockError<RwLockWriteGuard<'_, T>>,
    >)
        ensures
            *final(self) == *old(self),
            count != 2 ==> r is Ok,
    {
        if should_recycle(count) {
            match self.try_write() {
                Ok(mut guard) => {
                    write_guard_deref_mut(&mut guard).reinitialize();
                    Ok(())
                },
                Err(e) => Err(e),
            }
        } else {
            Ok(())
        }
    }

    /// Release protocol for a handle that is about to be dropped: when
    /// this handle is the last external holder — the strong reference
    /// count is exactly two, this handle plus the pool's own — the payload
    /// is reinitialized to its canonical fresh state, so that the slot
    /// goes back to the pool with no residual effect of its prior use.
    /// The handle value itself is never changed.
    ///
    /// Exclusive access is taken non-blockingly, so that the release path
    /// cannot deadlock; if the lock is contended or poisoned at that point,
    /// the error is returned and the payload is left as it is.  Such a
    /// failure is a bug in the caller: a slot would look free while its
    /// payload still carries the prior use.
    ///
    /// Call this immediately before the handle goes out of scope.  Which
    /// count is observed is machine state, so which case occurs is not
    /// determined by the handle value alone; the protocol itself runs
    /// through [`ArcHandle::recycle_if_last`], whose contract pins the
    /// outcome for each observed count.
    pub fn drop_handle(&mut self) -> (r: Result<(), TryLockError<RwLockWriteGuard<'_, T>>>)
        ensures
            *final(self) == *old(self),
    {
        let count = arc_strong_count(self);
        self.recycle_if_last(count)
    }
}

impl<T: Recyclable> Clone for ArcHandle<T> {
    /// Share ownership of the same slot: this is the checkout mechanism,
    /// incrementing the strong reference count.
    ///
    /// Relies on `Arc::clone`, which returns a pointer to the same
    /// allocation.
    #[verifier::external_body]
    fn clone(&self) -> (r: Self)
        ensures
            r == *self,
    {
        ArcHandle(self.0.clone())
    }
}

} // verus!
