use vstd::prelude::*;
use std::cell::BorrowError;
use std::cell::BorrowMutError;
use std::cell::Ref;
use std::cell::RefCell;
use std::cell::RefMut;
use std::rc::Rc;
use crate::counts::should_recycle;
use crate::pool_object::Recyclable;

verus! {

#[verifier::external_type_specification]
#[verifier::external_body]
#[verifier::reject_recursive_types(T)]
pub struct ExRefCell<T: ?Sized>(RefCell<T>);

#[verifier::external_type_specification]
#[verifier::external_body]
#[verifier::reject_recursive_types(T)]
pub struct ExRef<'b, T: ?Sized>(Ref<'b, T>);

#[verifier::external_type_specification]
#[verifier::external_body]
#[verifier::reject_recursive_types(T)]
pub struct ExRefMut<'b, T: ?Sized + 'b>(RefMut<'b, T>);

#[verifier::external_type_specification]
#[verifier::external_body]
pub struct ExBorrowError(BorrowError);

#[verifier::external_type_specification]
#[verifier::external_body]
pub struct ExBorrowMutError(BorrowMutError);

/// A shared handle to one slot of an [`RcPool`](crate::RcPool), for
/// single-threaded use.
///
/// The payload sits in a `RefCell`, so it can be mutated through a shared
/// handle, and the cell sits in an `Rc`, so the pool and any number of
/// external holders can own the slot together.  The `Rc`'s strong reference
/// count is the sole source of truth for whether the slot is in use: a count
/// of one means only the pool holds it (the slot is free); a count of two or
/// more means an external holder exists (the slot is checked out).  Cloning
/// a handle is the checkout mechanism, and [`RcHandle::drop_handle`] is the
/// release protocol that recycles the payload when the last external holder
/// lets go.
#[derive(Debug, PartialEq, Eq)]
#[verifier::reject_recursive_types(T)]
pub struct RcHandle<T: Recyclable>(pub Rc<RefCell<T>>);

/// Relies on `std::rc::Rc::strong_count`: the number of live `Rc` pointers
/// sharing ownership of the slot's cell.  The count is at least one, since
/// the handle passed in holds one such pointer.
#[verifier::external_body]
pub(crate) fn rc_strong_count<T: Recyclable>(handle: &RcHandle<T>) -> (r: usize)
    ensures
        r >= 1,
{
    Rc::strong_count(&handle.0)
}

/// Relies on `core::cell::RefCell::new`: wraps a payload into a fresh cell.
#[verifier::external_body]
fn refcell_new<T: Recyclable>(item: T) -> (r: RefCell<T>) {
    RefCell::new(item)
}

/// Relies on `core::cell::RefMut`'s `DerefMut` implementation: exclusive
/// access to the payload that the guard protects.
#[verifier::external_body]
fn refmut_deref_mut<'a, 'b, T: Recyclable>(guard: &'a mut RefMut<'b, T>) -> (r: &'a mut T) {
    &mut **guard
}

impl<T: Recyclable> RcHandle<T> {
    /// Wrap a freshly constructed payload into a new slot with itself as
    /// the only owner.
    pub fn new(item: T) -> Self {
        RcHandle(Rc::new(refcell_new(item)))
    }

    /// The shared pointer to this slot's cell, for reference-count
    /// introspection.
    pub fn as_ref(&self) -> (r: &Rc<RefCell<T>>)
        ensures
            *r == self.0,
    {
        &self.0
    }

    /// Immutably borrow the payload.
    ///
    /// This forwards `RefCell::borrow`: it panics if the payload is
    /// currently mutably borrowed.
    #[verifier::external_body]
    pub fn borrow<'a>(&'a self) -> Ref<'a, T> {
        self.0.borrow()
    }

    /// Immutably borrow the payload, failing if it is currently mutably
    /// borrowed.
    ///
    /// This forwards `RefCell::try_borrow`, which never panics.
    #[verifier::external_body]
    pub fn try_borrow<'a>(&'a self) -> Result<Ref<'a, T>, BorrowError> {
        self.0.try_borrow()
    }

    /// Mutably borrow the payload.
    ///
    /// This forwards `RefCell::borrow_mut`: it panics if the payload is
    /// currently borrowed.
    #[verifier::external_body]
    pub fn borrow_mut<'a>(&'a self) -> RefMut<'a, T> {
        self.0.borrow_mut()
    }

    /// Mutably borrow the payload, failing if it is currently borrowed.
    ///
    /// This forwards `RefCell::try_borrow_mut`, which never panics.
    #[verifier::external_body]
    pub fn try_borrow_mut<'a>(&'a self) -> Result<RefMut<'a, T>, BorrowMutError> {
        self.0.try_borrow_mut()
    }

    /// The release protocol, run for one observation of the strong
    /// reference count: when `count` reads two — the releasing handle
    /// itself plus the pool's own — take exclusive access to the payload
    /// non-blockingly and reinitialize it to its canonical fresh state;
    /// for any other reading, do nothing.  The decision runs through
    /// [`should_recycle`](crate::should_recycle).
    ///
    /// This is the decision half of [`RcHandle::drop_handle`], with the
    /// observation made an explicit argument, so that the contract pins
    /// the outcome for each value of it: the handle itself is never
    /// changed, and the call cannot fail unless recycling was warranted.
    /// The reset itself cannot be stated: the payload sits behind the
    /// cell, which the specification sees as opaque.  When an error comes
    /// back — the payload was still borrowed at release time — the
    /// payload is left as it is.
    pub fn recycle_if_last(&mut self, count: usize) -> (r: Result<(), BorrowMutError>)
        ensures
            *final(self) == *old(self),
            count != 2 ==> r is Ok,
    {
        if should_recycle(count) {
            match self.try_borrow_mut() {
                Ok(mut guard) => {
                    refmut_deref_mut(&mut guard).reinitialize();
                    Ok(())
                },
                Err(e) => Err(e),
            }
        } else {
            Ok(())
        }
    }

    /// Release protocol for a handle that is about to be dropped: when
    /// this handle is the last external holder — the strong reference
    /// count is exactly two, this handle plus the pool's own — the payload
    /// is reinitialized to its canonical fresh state, so that the slot
    /// goes back to the pool with no residual effect of its prior use.
    /// The handle value itself is never changed.
    ///
    /// Exclusive access is taken non-blockingly; if the payload is still
    /// borrowed at that point, the error is returned and the payload is
    /// left as it is.  Such a failure means a borrow outlived the handle it
    /// came from, which is a bug in the caller: a slot would look free
    /// while its payload still carries the prior use.
    ///
    /// Call this immediately before the handle goes out of scope.  Which
    /// count is observed is machine state, so which case occurs is not
    /// determined by the handle value alone; the protocol itself runs
    /// through [`RcHandle::recycle_if_last`], whose contract pins the
    /// outcome for each observed count.
    pub fn drop_handle(&mut self) -> (r: Result<(), BorrowMutError>)
        ensures
            *final(self) == *old(self),
    {
        let count = rc_strong_count(self);
        self.recycle_if_last(count)
    }
}

impl<T: Recyclable> Clone for RcHandle<T> {
    /// Share ownership of the same slot: this is the checkout mechanism,
    /// incrementing the strong reference count.
    ///
    /// Relies on `Rc::clone`, which returns a pointer to the same
    /// allocation.
    #[verifier::external_body]
    fn clone(&self) -> (r: Self)
        ensures
            r == *self,
    {
        RcHandle(self.0.clone())
    }
}

} // verus!
