use vstd::prelude::*;
use vstd::std_specs::cmp::OrdSpec;
use vstd::std_specs::cmp::PartialEqSpec;
use vstd::std_specs::cmp::PartialOrdSpec;
use core::cmp::Ordering;

verus! {

/// One slot of an [`ObjectPool`]: a payload together with the explicit
/// "checked out" flag that this pool variant maintains.
///
/// The flag says whether some holder of a [`PoolObjectHandler`] is currently
/// entitled to the payload.  Reinitializing a slot restores the payload to
/// the canonical fresh state given by the payload's `Default` implementation
/// and marks the slot as free.
#[derive(Debug)]
pub struct PoolObject<T: Default> {
    object: T,
    in_use: bool,
}

/// Construct the slot value with the given payload and flag.
pub closed spec fn slot<T: Default>(object: T, in_use: bool) -> PoolObject<T> {
    PoolObject { object, in_use }
}

impl<T: Default> PoolObject<T> {
    /// Whether this slot is currently checked out.
    pub closed spec fn spec_is_used(self) -> bool {
        self.in_use
    }

    /// The payload held by this slot.
    pub closed spec fn spec_object(self) -> T {
        self.object
    }

    /// This slot with the flag replaced and the payload kept.
    pub open spec fn with_used(self, used: bool) -> PoolObject<T> {
        slot(self.spec_object(), used)
    }

    /// Restore the payload to its canonical fresh state and mark the slot
    /// free, erasing any prior mutation.
    pub fn reinitialize(&mut self)
        ensures
            !final(self).spec_is_used(),
            call_ensures(T::default, (), final(self).spec_object()),
    {
        self.object = T::default();
        self.in_use = false;
    }

    /// Read the "checked out" flag.
    pub fn is_used(&self) -> (r: bool)
        ensures
            r == self.spec_is_used(),
    {
        self.in_use
    }

    /// Set the "checked out" flag, keeping the payload.
    pub fn set_used(&mut self, used: bool)
        ensures
            *final(self) == old(self).with_used(used),
    {
        self.in_use = used;
    }

    /// Read the payload.
    pub fn get(&self) -> (r: &T)
        ensures
            *r == self.spec_object(),
    {
        &self.object
    }
}

impl<T: Default> Default for PoolObject<T> {
    /// A free slot holding a freshly constructed payload.
    fn default() -> (r: Self)
        ensures
            !r.spec_is_used(),
            call_ensures(T::default, (), r.spec_object()),
    {
        PoolObject { object: T::default(), in_use: false }
    }
}

/// Checkout token returned by an [`ObjectPool`]'s acquisition methods.
///
/// A handler names the slot that was checked out; the pool's accessors
/// ([`ObjectPool::read`], [`ObjectPool::write`]) grant access to that slot's
/// payload, and [`ObjectPool::recycle`] gives the slot back.
#[derive(Debug)]
pub struct PoolObjectHandler {
    index: usize,
}

impl PoolObjectHandler {
    /// The position of the checked-out slot.
    pub closed spec fn spec_index(self) -> int {
        self.index as int
    }

    /// The position of the checked-out slot.
    pub fn index(&self) -> (i: usize)
        ensures
            i == self.spec_index(),
    {
        self.index
    }
}

/// The number of free slots in a sequence of slots.
pub open spec fn free_count<T: Default>(s: Seq<PoolObject<T>>) -> int
    decreases s.len(),
{
    if s.len() == 0 {
        0
    } else {
        free_count(s.drop_last()) + if s.last().spec_is_used() {
            0int
        } else {
            1int
        }
    }
}

/// A fixed-capacity pool of directly owned slots with explicit checkout
/// bookkeeping.
///
/// The pool is sized once at construction and never grows or shrinks; slots
/// are only ever recycled in place.  Acquisition scans the slots in index
/// order and checks out the first free one; forced eviction reclaims a
/// checked-out slot ahead of its release, by predicate or by the payload's
/// ordering.
pub struct ObjectPool<T: Default>(Vec<PoolObject<T>>);

impl<T: Default> View for ObjectPool<T> {
    type V = Seq<PoolObject<T>>;

    closed spec fn view(&self) -> Seq<PoolObject<T>> {
        self.0@
    }
}

impl<T: Default> ObjectPool<T> {
    /// Create a pool with `size` slots, each holding a freshly constructed
    /// payload and marked free.
    pub fn with_capacity(size: usize) -> (pool: Self)
        ensures
            pool@.len() == size,
            forall|i: int| 0 <= i < size ==> !(#[trigger] pool@[i]).spec_is_used(),
            forall|i: int|
                0 <= i < size ==> call_ensures(T::default, (), (#[trigger] pool@[i]).spec_object()),
    {
        let mut objects: Vec<PoolObject<T>> = Vec::with_capacity(size);
        let mut i: usize = 0;
        while i < size
            invariant
                i <= size,
                objects@.len() == i,
                forall|j: int| 0 <= j < i ==> !(#[trigger] objects@[j]).spec_is_used(),
                forall|j: int|
                    0 <= j < i ==> call_ensures(
                        T::default,
                        (),
                        (#[trigger] objects@[j]).spec_object(),
                    ),
            decreases size - i,
        {
            objects.push(PoolObject::default());
            i += 1;
        }
        ObjectPool(objects)
    }

    /// The first free slot's position, if any slot is free.
    fn first_free_index(&self) -> (r: Option<usize>)
        ensures
            match r {
                Some(i) => {
                    &&& i < self@.len()
                    &&& !self@[i as int].spec_is_used()
                    &&& forall|j: int| 0 <= j < i ==> (#[trigger] self@[j]).spec_is_used()
                },
                None => forall|j: int|
                    0 <= j < self@.len() ==> (#[trigger] self@[j]).spec_is_used(),
            },
    {
        let n = self.0.len();
        let mut idx: usize = 0;
        while idx < n
            invariant
                idx <= n,
                n == self@.len(),
                forall|j: int| 0 <= j < idx ==> (#[trigger] self@[j]).spec_is_used(),
            decreases n - idx,
        {
            if !self.0[idx].is_used() {
                return Some(idx);
            }
            idx += 1;
        }
        None
    }

    /// Check out the first free slot, marking it used and returning its
    /// handler.  Fails exactly when every slot is checked out.
    pub fn create(&mut self) -> (r: Option<PoolObjectHandler>)
        ensures
            match r {
                Some(h) => {
                    &&& 0 <= h.spec_index() < old(self)@.len()
                    &&& !old(self)@[h.spec_index()].spec_is_used()
                    &&& forall|j: int|
                        0 <= j < h.spec_index() ==> (#[trigger] old(self)@[j]).spec_is_used()
                    &&& final(self)@ == old(self)@.update(
                        h.spec_index(),
                        old(self)@[h.spec_index()].with_used(true),
                    )
                    &&& final(self)@[h.spec_index()].spec_is_used()
                    &&& final(self)@[h.spec_index()].spec_object() == old(
                        self,
                    )@[h.spec_index()].spec_object()
                    &&& free_count(final(self)@) == free_count(old(self)@) - 1
                },
                None => {
                    &&& final(self)@ == old(self)@
                    &&& free_count(old(self)@) == 0
                },
            },
            r is None <==> free_count(old(self)@) == 0,
    {
        let picked = self.first_free_index();
        match picked {
            Some(i) => {
                let slot_ref = &mut self.0[i];
                slot_ref.set_used(true);
                proof {
                    lemma_free_count_update(
                        old(self)@,
                        i as int,
                        old(self)@[i as int].with_used(true),
                    );
                    lemma_free_count_positive(old(self)@, i as int);
                }
                Some(PoolObjectHandler { index: i })
            },
            None => {
                proof {
                    lemma_free_count_all_used(old(self)@);
                }
                None
            },
        }
    }

    /// The number of slots that are currently free.
    pub fn nb_unused(&self) -> (r: usize)
        ensures
            r == free_count(self@),
    {
        let n = self.0.len();
        let mut idx: usize = 0;
        let mut count: usize = 0;
        while idx < n
            invariant
                idx <= n,
                n == self@.len(),
                count <= idx,
                count == free_count(self@.take(idx as int)),
            decreases n - idx,
        {
            if !self.0[idx].is_used() {
                count += 1;
            }
            proof {
                assert(self@.take(idx + 1).drop_last() =~= self@.take(idx as int));
                assert(self@.take(idx + 1).last() == self@[idx as int]);
            }
            idx += 1;
        }
        proof {
            assert(self@.take(n as int) =~= self@);
        }
        count
    }

    /// The fixed number of slots of this pool.
    pub fn capacity(&self) -> (r: usize)
        ensures
            r == self@.len(),
    {
        self.0.len()
    }

    /// The pool's slots, in index order.
    pub fn pool_slice(&self) -> (r: &[PoolObject<T>])
        ensures
            r@ == self@,
    {
        self.0.as_slice()
    }

    /// Read the payload of the slot named by `handler`.
    pub fn read(&self, handler: &PoolObjectHandler) -> (r: &T)
        requires
            handler.spec_index() < self@.len(),
        ensures
            *r == self@[handler.spec_index()].spec_object(),
    {
        &self.0[handler.index].object
    }

    /// Gain exclusive access to the payload of the slot named by `handler`;
    /// the slot's flag is untouched.
    pub fn write(&mut self, handler: &PoolObjectHandler) -> (r: &mut T)
        requires
            handler.spec_index() < old(self)@.len(),
        ensures
            *r == old(self)@[handler.spec_index()].spec_object(),
            final(self)@ == old(self)@.update(
                handler.spec_index(),
                slot(*final(r), old(self)@[handler.spec_index()].spec_is_used()),
            ),
    {
        let slot_ref = &mut self.0[handler.index];
        &mut slot_ref.object
    }

    /// The position of the first slot whose payload satisfies `predicate`,
    /// if any does.
    fn first_matching_index<P: Fn(&T) -> bool>(&self, predicate: P) -> (r: Option<usize>)
        requires
            forall|i: int|
                0 <= i < self@.len() ==> call_requires(
                    predicate,
                    (&(#[trigger] self@[i]).spec_object(),),
                ),
        ensures
            match r {
                Some(i) => {
                    &&& i < self@.len()
                    &&& call_ensures(predicate, (&self@[i as int].spec_object(),), true)
                    &&& forall|j: int|
                        0 <= j < i ==> call_ensures(
                            predicate,
                            (&(#[trigger] self@[j]).spec_object(),),
                            false,
                        )
                },
                None => forall|j: int|
                    0 <= j < self@.len() ==> call_ensures(
                        predicate,
                        (&(#[trigger] self@[j]).spec_object(),),
                        false,
                    ),
            },
    {
        let n = self.0.len();
        let mut idx: usize = 0;
        while idx < n
            invariant
                idx <= n,
                n == self@.len(),
                forall|i: int|
                    0 <= i < n ==> call_requires(predicate, (&(#[trigger] self@[i]).spec_object(),)),
                forall|j: int|
                    0 <= j < idx ==> call_ensures(
                        predicate,
                        (&(#[trigger] self@[j]).spec_object(),),
                        false,
                    ),
            decreases n - idx,
        {
            if predicate(&self.0[idx].object) {
                return Some(idx);
            }
            idx += 1;
        }
        None
    }

    /// Scan every slot, free or checked out, for the first one whose payload
    /// satisfies `predicate`; if one is found, forcibly reinitialize its
    /// payload and check it out, whatever its prior state.
    ///
    /// This reclaims a slot out-of-band: a holder of an earlier handler for
    /// the same slot observes the payload silently reset underneath it.  The
    /// policy of which slot to evict is entirely the caller's, through
    /// `predicate`.
    pub fn force_create_with_filter<P: Fn(&T) -> bool>(&mut self, predicate: P) -> (r: Option<
        PoolObjectHandler,
    >)
        requires
            forall|i: int|
                0 <= i < old(self)@.len() ==> call_requires(
                    predicate,
                    (&(#[trigger] old(self)@[i]).spec_object(),),
                ),
        ensures
            match r {
                Some(h) => {
                    &&& 0 <= h.spec_index() < old(self)@.len()
                    &&& call_ensures(
                        predicate,
                        (&old(self)@[h.spec_index()].spec_object(),),
                        true,
                    )
                    &&& forall|j: int|
                        0 <= j < h.spec_index() ==> call_ensures(
                            predicate,
                            (&(#[trigger] old(self)@[j]).spec_object(),),
                            false,
                        )
                    &&& exists|fresh: T|
                        {
                            &&& #[trigger] call_ensures(T::default, (), fresh)
                            &&& final(self)@ == old(self)@.update(h.spec_index(), slot(fresh, true))
                        }
                    &&& final(self)@[h.spec_index()].spec_is_used()
                    &&& free_count(final(self)@) == free_count(old(self)@) - (
                    if old(self)@[h.spec_index()].spec_is_used() {
                        0int
                    } else {
                        1int
                    })
                },
                None => {
                    &&& final(self)@ == old(self)@
                    &&& forall|j: int|
                        0 <= j < old(self)@.len() ==> call_ensures(
                            predicate,
                            (&(#[trigger] old(self)@[j]).spec_object(),),
                            false,
                        )
                },
            },
    {
        let picked = self.first_matching_index(predicate);
        match picked {
            Some(i) => {
                let slot_ref = &mut self.0[i];
                slot_ref.reinitialize();
                slot_ref.set_used(true);
                proof {
                    let fresh = final(slot_ref).spec_object();
                    assert(final(self)@ == old(self)@.update(i as int, slot(fresh, true)));
                    lemma_free_count_update(old(self)@, i as int, slot(fresh, true));
                }
                Some(PoolObjectHandler { index: i })
            },
            None => None,
        }
    }

    /// Give a checked-out slot back to the pool: the payload is restored to
    /// its canonical fresh state and the slot becomes free again.
    ///
    /// This is the recycling step that the reference-counted pool variants
    /// run when the last external handle releases a slot; here it is an
    /// explicit event, consuming the handler.
    pub fn recycle(&mut self, handler: PoolObjectHandler)
        requires
            handler.spec_index() < old(self)@.len(),
            old(self)@[handler.spec_index()].spec_is_used(),
        ensures
            exists|fresh: T|
                {
                    &&& #[trigger] call_ensures(T::default, (), fresh)
                    &&& final(self)@ == old(self)@.update(handler.spec_index(), slot(fresh, false))
                },
            !final(self)@[handler.spec_index()].spec_is_used(),
            free_count(final(self)@) == free_count(old(self)@) + 1,
    {
        let slot_ref = &mut self.0[handler.index];
        slot_ref.reinitialize();
        proof {
            let fresh = final(slot_ref).spec_object();
            assert(final(self)@ == old(self)@.update(handler.spec_index(), slot(fresh, false)));
            lemma_free_count_update(old(self)@, handler.spec_index(), slot(fresh, false));
        }
    }
}

/// Whether the payload type's comparison operators behave as a total order
/// in which `Equal` means real equality.  Hand-written or derived `Ord`
/// implementations are opaque to the verifier, so the minimality guarantees
/// of [`ObjectPool::force_create`] are stated under this hypothesis.
pub open spec fn payload_order_obeyed<T: Ord>() -> bool {
    &&& vstd::laws_cmp::obeys_cmp::<T>()
    &&& vstd::laws_eq::obeys_concrete_eq::<T>()
}

impl<T: Default + Ord> ObjectPool<T> {
    /// The position of the first slot whose payload is minimal under the
    /// payload's ordering; nothing exactly when the pool is empty.
    fn min_payload_index(&self) -> (r: Option<usize>)
        ensures
            r is Some <==> self@.len() > 0,
            r matches Some(m) ==> m < self@.len(),
            payload_order_obeyed::<T>() ==> match r {
                Some(m) => {
                    &&& forall|j: int|
                        0 <= j < self@.len() ==> (#[trigger] self@[m as int].spec_object().cmp_spec(
                            &self@[j].spec_object(),
                        )) != Ordering::Greater
                    &&& forall|j: int|
                        0 <= j < m ==> (#[trigger] self@[j].spec_object().cmp_spec(
                            &self@[m as int].spec_object(),
                        )) == Ordering::Greater
                },
                None => true,
            },
    {
        let n = self.0.len();
        if n == 0 {
            return None;
        }
        let mut m: usize = 0;
        let mut idx: usize = 1;
        proof {
            if payload_order_obeyed::<T>() {
                reveal(vstd::laws_cmp::obeys_cmp_partial_ord);
                reveal(vstd::laws_cmp::obeys_cmp_ord);
                reveal(vstd::laws_eq::obeys_concrete_eq);
                let x = self@[0].spec_object();
                assert(x.eq_spec(&x));
                assert(x.cmp_spec(&x) != Ordering::Greater);
            }
        }
        while idx < n
            invariant
                1 <= idx <= n,
                m < idx,
                n == self@.len(),
                payload_order_obeyed::<T>() ==> forall|j: int|
                    0 <= j < idx ==> (#[trigger] self@[m as int].spec_object().cmp_spec(
                        &self@[j].spec_object(),
                    )) != Ordering::Greater,
                payload_order_obeyed::<T>() ==> forall|j: int|
                    0 <= j < m ==> (#[trigger] self@[j].spec_object().cmp_spec(
                        &self@[m as int].spec_object(),
                    )) == Ordering::Greater,
            decreases n - idx,
        {
            let ghost prev = m as int;
            let below = self.0[idx].object.lt(&self.0[m].object);
            if below {
                m = idx;
            }
            proof {
                if payload_order_obeyed::<T>() {
                    reveal(vstd::laws_cmp::obeys_cmp_partial_ord);
                    reveal(vstd::laws_cmp::obeys_cmp_ord);
                    assert(below <==> self@[idx as int].spec_object().cmp_spec(
                        &self@[prev].spec_object(),
                    ) == Ordering::Less);
                    lemma_min_scan_step(self@, prev, idx as int, m as int);
                }
            }
            idx += 1;
        }
        Some(m)
    }

    /// Scan every slot, free or checked out, and forcibly reclaim the one
    /// holding the minimum payload under the payload's ordering: its payload
    /// is reinitialized and the slot is checked out, whatever its prior
    /// state.  Fails exactly on an empty pool.
    ///
    /// Like [`ObjectPool::force_create_with_filter`], this is an escape
    /// hatch for "evict the least important object" policies: a holder of an
    /// earlier handler for the same slot observes the payload silently
    /// reset.
    pub fn force_create(&mut self) -> (r: Option<PoolObjectHandler>)
        ensures
            r is Some <==> old(self)@.len() > 0,
            match r {
                Some(h) => {
                    &&& 0 <= h.spec_index() < old(self)@.len()
                    &&& exists|fresh: T|
                        {
                            &&& #[trigger] call_ensures(T::default, (), fresh)
                            &&& final(self)@ == old(self)@.update(h.spec_index(), slot(fresh, true))
                        }
                    &&& final(self)@[h.spec_index()].spec_is_used()
                    &&& free_count(final(self)@) == free_count(old(self)@) - (
                    if old(self)@[h.spec_index()].spec_is_used() {
                        0int
                    } else {
                        1int
                    })
                    &&& payload_order_obeyed::<T>() ==> {
                        &&& forall|j: int|
                            0 <= j < old(self)@.len() ==> (#[trigger] old(
                                self,
                            )@[h.spec_index()].spec_object().cmp_spec(&old(self)@[j].spec_object()))
                                != Ordering::Greater
                        &&& forall|j: int|
                            0 <= j < h.spec_index() ==> (#[trigger] old(self)@[j].spec_object().cmp_spec(
                                &old(self)@[h.spec_index()].spec_object(),
                            )) == Ordering::Greater
                    }
                },
                None => final(self)@ == old(self)@,
            },
    {
        let picked = self.min_payload_index();
        match picked {
            Some(i) => {
                let slot_ref = &mut self.0[i];
                slot_ref.reinitialize();
                slot_ref.set_used(true);
                proof {
                    let fresh = final(slot_ref).spec_object();
                    assert(final(self)@ == old(self)@.update(i as int, slot(fresh, true)));
                    lemma_free_count_update(old(self)@, i as int, slot(fresh, true));
                }
                Some(PoolObjectHandler { index: i })
            },
            None => None,
        }
    }
}

/// One step of the minimum scan: how the position of the running minimum
/// evolves when the slot at `idx` is taken into account.
proof fn lemma_min_scan_step<T: Default + Ord>(a: Seq<PoolObject<T>>, prev: int, idx: int, m: int)
    requires
        payload_order_obeyed::<T>(),
        0 <= prev < idx < a.len(),
        forall|j: int|
            0 <= j < idx ==> (#[trigger] a[prev].spec_object().cmp_spec(&a[j].spec_object()))
                != Ordering::Greater,
        forall|j: int|
            0 <= j < prev ==> (#[trigger] a[j].spec_object().cmp_spec(&a[prev].spec_object()))
                == Ordering::Greater,
        if a[idx].spec_object().cmp_spec(&a[prev].spec_object()) == Ordering::Less {
            m == idx
        } else {
            m == prev
        },
    ensures
        forall|j: int|
            0 <= j < idx + 1 ==> (#[trigger] a[m].spec_object().cmp_spec(&a[j].spec_object()))
                != Ordering::Greater,
        forall|j: int|
            0 <= j < m ==> (#[trigger] a[j].spec_object().cmp_spec(&a[m].spec_object()))
                == Ordering::Greater,
{
    reveal(vstd::laws_cmp::obeys_cmp_partial_ord);
    reveal(vstd::laws_cmp::obeys_cmp_ord);
    reveal(vstd::laws_cmp::obeys_partial_cmp_spec_properties);
    reveal(vstd::laws_eq::obeys_concrete_eq);
    assert forall|j: int| 0 <= j < idx + 1 implies (#[trigger] a[m].spec_object().cmp_spec(
        &a[j].spec_object(),
    )) != Ordering::Greater by {
        let x = a[m].spec_object();
        let y = a[j].spec_object();
        let p = a[prev].spec_object();
        if j == m {
            assert(x.eq_spec(&y));
        } else if m == idx {
            if j == idx {
            } else if p.cmp_spec(&y) == Ordering::Equal {
                assert(p.eq_spec(&y));
                assert(p == y);
            } else {
                assert(x.partial_cmp_spec(&p) == Some(Ordering::Less));
                assert(p.partial_cmp_spec(&y) == Some(Ordering::Less));
            }
        } else {
            if j == idx {
                assert(!(y.partial_cmp_spec(&x) == Some(Ordering::Less)));
            }
        }
    }
    assert forall|j: int| 0 <= j < m implies (#[trigger] a[j].spec_object().cmp_spec(
        &a[m].spec_object(),
    )) == Ordering::Greater by {
        let x = a[m].spec_object();
        let y = a[j].spec_object();
        let p = a[prev].spec_object();
        if m == idx {
            if p.cmp_spec(&y) == Ordering::Equal {
                assert(p.eq_spec(&y));
                assert(p == y);
                assert(y.partial_cmp_spec(&x) == Some(Ordering::Greater));
            } else if j < prev {
                assert(y.partial_cmp_spec(&p) == Some(Ordering::Greater));
                assert(x.partial_cmp_spec(&p) == Some(Ordering::Less));
                assert(p.partial_cmp_spec(&x) == Some(Ordering::Greater));
                assert(y.partial_cmp_spec(&x) == Some(Ordering::Greater));
            } else {
                assert(p.cmp_spec(&y) == Ordering::Less);
                assert(y.partial_cmp_spec(&p) == Some(Ordering::Greater));
                assert(x.partial_cmp_spec(&p) == Some(Ordering::Less));
                assert(p.partial_cmp_spec(&x) == Some(Ordering::Greater));
                assert(y.partial_cmp_spec(&x) == Some(Ordering::Greater));
            }
        }
    }
}

/// Projections of the slot constructor: [`slot`] builds exactly the slot
/// whose payload and flag were given.  This is the bridge from the
/// constructor that the pool contracts use in their update clauses to the
/// projections [`PoolObject::spec_is_used`] and [`PoolObject::spec_object`],
/// for callers outside this module.
pub proof fn lemma_slot_parts<T: Default>(object: T, in_use: bool)
    ensures
        slot(object, in_use).spec_is_used() == in_use,
        slot(object, in_use).spec_object() == object,
{
}

/// Exhaustion invariant.  A fresh pool of capacity `N` has `N` free slots;
/// each successful acquisition removes exactly one slot from the free pool;
/// and once the free count reaches zero, every slot is checked out, so the
/// next acquisition fails (see [`ObjectPool::create`]: it returns nothing
/// exactly when the free count is zero).
pub proof fn lemma_exhaustion<T: Default>(s: Seq<PoolObject<T>>, i: int)
    ensures
        (forall|j: int| 0 <= j < s.len() ==> !(#[trigger] s[j]).spec_is_used()) ==> free_count(s)
            == s.len(),
        free_count(s) == 0 ==> forall|j: int| 0 <= j < s.len() ==> (#[trigger] s[j]).spec_is_used(),
        (0 <= i < s.len() && !s[i].spec_is_used()) ==> {
            &&& free_count(s) >= 1
            &&& free_count(s.update(i, s[i].with_used(true))) == free_count(s) - 1
        },
{
    if forall|j: int| 0 <= j < s.len() ==> !(#[trigger] s[j]).spec_is_used() {
        lemma_free_count_fully_free(s);
    }
    if free_count(s) == 0 {
        lemma_free_count_zero_all_used(s);
    }
    if 0 <= i < s.len() && !s[i].spec_is_used() {
        lemma_free_count_positive(s, i);
        lemma_free_count_update(s, i, s[i].with_used(true));
    }
}

/// Recycling invariant.  Acquiring a free slot, mutating its payload, and
/// then recycling it restores the free count to its prior value, and the
/// slot afterwards holds a canonical fresh payload, with no trace of the
/// mutation.
pub proof fn lemma_recycling<T: Default>(s: Seq<PoolObject<T>>, i: int, mutated: T, fresh: T)
    requires
        0 <= i < s.len(),
        !s[i].spec_is_used(),
        call_ensures(T::default, (), fresh),
    ensures
        ({
            let acquired = s.update(i, s[i].with_used(true));
            let written = acquired.update(i, slot(mutated, true));
            let recycled = written.update(i, slot(fresh, false));
            &&& free_count(acquired) == free_count(s) - 1
            &&& free_count(written) == free_count(s) - 1
            &&& free_count(recycled) == free_count(s)
            &&& !recycled[i].spec_is_used()
            &&& recycled[i].spec_object() == fresh
            &&& call_ensures(T::default, (), recycled[i].spec_object())
        }),
{
    let acquired = s.update(i, s[i].with_used(true));
    let written = acquired.update(i, slot(mutated, true));
    lemma_free_count_update(s, i, s[i].with_used(true));
    lemma_free_count_update(acquired, i, slot(mutated, true));
    lemma_free_count_update(written, i, slot(fresh, false));
}

/// Idempotence of reinitialization.  When the payload's canonical fresh
/// state is uniquely determined by its `Default` implementation,
/// reinitializing a slot twice in a row yields the same observable state as
/// reinitializing it once.
pub proof fn lemma_reinitialize_idempotent<T: Default>(s: PoolObject<T>, once: T, again: T)
    requires
        call_ensures(T::default, (), once),
        call_ensures(T::default, (), again),
        forall|x: T, y: T|
            #[trigger] call_ensures(T::default, (), x) && #[trigger] call_ensures(T::default, (), y)
                ==> x == y,
    ensures
        slot(again, false) == slot(once, false),
{
}

/// Forced eviction.  Reclaiming a checked-out slot `k` resets its payload
/// and hands it out still checked out, so the free count is unchanged; in
/// particular a fully checked-out pool still has no free slot afterwards.
pub proof fn lemma_forced_eviction<T: Default>(s: Seq<PoolObject<T>>, k: int, fresh: T)
    requires
        0 <= k < s.len(),
        s[k].spec_is_used(),
        call_ensures(T::default, (), fresh),
    ensures
        free_count(s.update(k, slot(fresh, true))) == free_count(s),
        free_count(s) == 0 ==> free_count(s.update(k, slot(fresh, true))) == 0,
        s.update(k, slot(fresh, true))[k].spec_is_used(),
        s.update(k, slot(fresh, true))[k].spec_object() == fresh,
{
    lemma_free_count_update(s, k, slot(fresh, true));
}

/// A pool whose slots are all free has as many free slots as slots.
proof fn lemma_free_count_fully_free<T: Default>(s: Seq<PoolObject<T>>)
    requires
        forall|j: int| 0 <= j < s.len() ==> !(#[trigger] s[j]).spec_is_used(),
    ensures
        free_count(s) == s.len(),
    decreases s.len(),
{
    if s.len() > 0 {
        lemma_free_count_fully_free(s.drop_last());
    }
}

/// A pool with no free slot has every slot checked out.
proof fn lemma_free_count_zero_all_used<T: Default>(s: Seq<PoolObject<T>>)
    requires
        free_count(s) == 0,
    ensures
        forall|j: int| 0 <= j < s.len() ==> (#[trigger] s[j]).spec_is_used(),
    decreases s.len(),
{
    if s.len() > 0 {
        lemma_free_count_bounds(s.drop_last());
        lemma_free_count_zero_all_used(s.drop_last());
        assert forall|j: int| 0 <= j < s.len() implies (#[trigger] s[j]).spec_is_used() by {
            if j < s.len() - 1 {
                assert(s[j] == s.drop_last()[j]);
            }
        }
    }
}

/// How updating one slot changes the free count.
proof fn lemma_free_count_update<T: Default>(s: Seq<PoolObject<T>>, i: int, v: PoolObject<T>)
    requires
        0 <= i < s.len(),
    ensures
        free_count(s.update(i, v)) == free_count(s) + (if v.spec_is_used() {
            0int
        } else {
            1int
        }) - (if s[i].spec_is_used() {
            0int
        } else {
            1int
        }),
    decreases s.len(),
{
    if i == s.len() - 1 {
        assert(s.update(i, v).drop_last() =~= s.drop_last());
    } else {
        assert(s.update(i, v).drop_last() =~= s.drop_last().update(i, v));
        lemma_free_count_update(s.drop_last(), i, v);
    }
}

/// A pool whose slots are all checked out has no free slot.
proof fn lemma_free_count_all_used<T: Default>(s: Seq<PoolObject<T>>)
    requires
        forall|j: int| 0 <= j < s.len() ==> (#[trigger] s[j]).spec_is_used(),
    ensures
        free_count(s) == 0,
    decreases s.len(),
{
    if s.len() > 0 {
        lemma_free_count_all_used(s.drop_last());
    }
}

/// A free slot makes the free count positive.
proof fn lemma_free_count_positive<T: Default>(s: Seq<PoolObject<T>>, i: int)
    requires
        0 <= i < s.len(),
        !s[i].spec_is_used(),
    ensures
        free_count(s) >= 1,
    decreases s.len(),
{
    if i == s.len() - 1 {
        lemma_free_count_bounds(s.drop_last());
    } else {
        lemma_free_count_positive(s.drop_last(), i);
    }
}

/// The free count lies between zero and the number of slots.
proof fn lemma_free_count_bounds<T: Default>(s: Seq<PoolObject<T>>)
    ensures
        0 <= free_count(s) <= s.len(),
    decreases s.len(),
{
    if s.len() > 0 {
        lemma_free_count_bounds(s.drop_last());
    }
}

} // verus!
