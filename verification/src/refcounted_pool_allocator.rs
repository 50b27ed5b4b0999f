use vstd::prelude::*;
use vstd::string::StringExecFns;
use crate::counts::{count_free_of, first_free_of, spec_count_free};
use crate::errors::{PoolError, PoolResult};
use crate::pool_object::Recyclable;
use crate::refcounted_pool_handler::{rc_strong_count, RcHandle};

verus! {

/// A fixed-capacity pool of reference-counted slots for single-threaded
/// use: a wrapper around a vector of [`RcHandle`]s.
///
/// Every slot starts free, with a strong reference count of one (the pool's
/// own).  Acquisition scans the slots in index order and returns a clone of
/// the first free handle, raising its count to two; there is no separate
/// checkout call.  When the last external clone of a handle is released
/// through [`RcHandle::drop_handle`], the payload is reinitialized and the
/// slot is free again, without the pool being involved.
#[derive(Debug, Clone)]
#[verifier::reject_recursive_types(T)]
pub struct RcPool<T: Recyclable>(Vec<RcHandle<T>>);

impl<T: Recyclable> View for RcPool<T> {
    type V = Seq<RcHandle<T>>;

    closed spec fn view(&self) -> Seq<RcHandle<T>> {
        self.0@
    }
}

impl<T: Recyclable> RcPool<T> {
    /// Create a pool with `size` slots, each wrapping one payload built by
    /// the factory `op`, and each initially free.
    pub fn with_capacity<F: Fn() -> T>(size: usize, op: F) -> (pool: Self)
        requires
            call_requires(op, ()),
        ensures
            pool@.len() == size,
    {
        let mut objects: Vec<RcHandle<T>> = Vec::with_capacity(size);
        let mut i: usize = 0;
        while i < size
            invariant
                i <= size,
                objects@.len() == i,
                call_requires(op, ()),
            decreases size - i,
        {
            objects.push(RcHandle::new(op()));
            i += 1;
        }
        RcPool(objects)
    }

    /// The pool's slots, in index order.
    pub fn pool_slice(&self) -> (r: &[RcHandle<T>])
        ensures
            r@ == self@,
    {
        self.0.as_slice()
    }

    /// One observation of every slot's strong reference count, in index
    /// order.  Each count is at least one, for the pool's own handle; how
    /// many clones are live when a slot's count is read is machine state,
    /// so two observations of one pool may differ.
    fn observed_counts(&self) -> (counts: Vec<usize>)
        ensures
            counts@.len() == self@.len(),
            forall|i: int| 0 <= i < counts@.len() ==> (#[trigger] counts@[i]) >= 1,
    {
        let n = self.0.len();
        let mut counts: Vec<usize> = Vec::with_capacity(n);
        let mut idx: usize = 0;
        while idx < n
            invariant
                idx <= n,
                n == self@.len(),
                counts@.len() == idx,
                forall|i: int| 0 <= i < idx ==> (#[trigger] counts@[i]) >= 1,
            decreases n - idx,
        {
            counts.push(rc_strong_count(&self.0[idx]));
            idx += 1;
        }
        counts
    }

    /// The acquisition decision, run for one observation of the pool:
    /// given the strong counts read from the slots in index order, return
    /// the position of the first slot observed free — count of one — and
    /// check it out by returning a clone of its handle; nothing exactly
    /// when no count reads one, that is, when the observation says the
    /// pool is exhausted.
    ///
    /// This is [`RcPool::create`] with the observation made an explicit
    /// argument, so that the contract pins the selection and the checkout
    /// for each value of it.
    pub fn create_from_counts(&self, counts: &Vec<usize>) -> (r: Option<(usize, RcHandle<T>)>)
        requires
            counts@.len() == self@.len(),
        ensures
            match r {
                Some((i, h)) => {
                    &&& i < self@.len()
                    &&& counts@[i as int] == 1
                    &&& forall|j: int| 0 <= j < i ==> (#[trigger] counts@[j]) != 1
                    &&& h == self@[i as int]
                },
                None => forall|j: int| 0 <= j < counts@.len() ==> (#[trigger] counts@[j]) != 1,
            },
            r is None <==> spec_count_free(counts@) == 0,
    {
        match first_free_of(counts) {
            Some(i) => Some((i, self.0[i].clone())),
            None => None,
        }
    }

    /// Ask the pool for a handle, with exhaustion reported as an error
    /// value: observe every slot's strong reference count and check out
    /// the first slot observed free (count of one) by returning a clone of
    /// it.  When no slot is observed free, the pool is exhausted and the
    /// error says so.
    ///
    /// Whether a slot is free depends on how many clones of its handle are
    /// live when its count is read, so which case occurs is not determined
    /// by the pool value alone; what holds of every outcome is stated
    /// below, and the decision itself runs through
    /// [`RcPool::create_from_counts`], whose contract pins the chosen slot
    /// exactly for each value of the observation.
    pub fn create_strict(&self) -> (r: PoolResult<RcHandle<T>>)
        ensures
            r matches Ok(h) ==> exists|i: int| 0 <= i < self@.len() && h == self@[i],
            r matches Err(e) ==> e.message_spec() == "The RcPool is out of objects !"@,
    {
        let counts = self.observed_counts();
        match self.create_from_counts(&counts) {
            Some((_, handle)) => Ok(handle),
            None => Err(PoolError::PoolError(String::from_str("The RcPool is out of objects !"))),
        }
    }

    /// Ask the pool for a handle: observe every slot's strong reference
    /// count and check out the first slot observed free (count of one) by
    /// returning a clone of it; nothing when no slot is observed free.
    ///
    /// As with [`RcPool::create_strict`], which case occurs depends on the
    /// observed counts; the decision among them runs through
    /// [`RcPool::create_from_counts`], whose contract pins it exactly.
    pub fn create(&self) -> (r: Option<RcHandle<T>>)
        ensures
            r matches Some(h) ==> exists|i: int| 0 <= i < self@.len() && h == self@[i],
    {
        let counts = self.observed_counts();
        match self.create_from_counts(&counts) {
            Some((_, handle)) => Some(handle),
            None => None,
        }
    }

    /// The number of slots observed free — strong reference count of one —
    /// during one observation of the pool.  Never more than the capacity;
    /// the counting itself runs through
    /// [`count_free_of`](crate::count_free_of), whose contract pins it
    /// exactly for each value of the observations.
    pub fn nb_unused(&self) -> (r: usize)
        ensures
            r <= self@.len(),
    {
        let counts = self.observed_counts();
        count_free_of(&counts)
    }

    /// The fixed number of slots of this pool.
    pub fn capacity(&self) -> (r: usize)
        ensures
            r == self@.len(),
    {
        self.0.len()
    }
}

} // verus!
