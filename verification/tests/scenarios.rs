use object_pool::{ArcPool, ObjectPool, RcPool, Recyclable};

pub struct Monster {
    pub level: u8,
}

impl Recyclable for Monster {
    fn reinitialize(&mut self) {
        self.level = 1;
    }
}

// A capacity-three pool: three acquisitions succeed, the fourth finds the
// pool exhausted; releasing one handle frees exactly one slot, and the slot
// comes back with its payload reset, not with the prior mutation.
#[test]
fn capacity_three_exhaust_release_reacquire() {
    let pool = RcPool::with_capacity(3, || Monster { level: 10 });
    let first = pool.create().unwrap();
    let second = pool.create().unwrap();
    let mut third = pool.create().unwrap();
    assert!(pool.create().is_none());
    assert_eq!(pool.nb_unused(), 0);

    third.borrow_mut().level = 42;
    third.drop_handle().unwrap();
    drop(third);
    assert_eq!(pool.nb_unused(), 1);

    let reacquired = pool.create().unwrap();
    assert_eq!(reacquired.borrow().level, 1);

    assert_eq!(first.borrow().level, 10);
    assert_eq!(second.borrow().level, 10);
}

// A capacity-one pool: strict acquisition succeeds once, then fails with
// the exhaustion error, whose description names the pool kind.
#[test]
fn capacity_one_strict_exhaustion_error() {
    let pool = RcPool::with_capacity(1, || Monster { level: 10 });
    let held = pool.create_strict().unwrap();
    let second = pool.create_strict();
    match second {
        Ok(_) => panic!("the pool has a single slot and it is checked out"),
        Err(e) => assert_eq!(e.message().as_str(), "The RcPool is out of objects !"),
    }
    assert_eq!(held.borrow().level, 10);
}

// Reinitializing twice in a row leaves the same observable state as
// reinitializing once.
#[test]
fn reinitialize_twice_equals_once() {
    let mut monster = Monster { level: 42 };
    monster.reinitialize();
    let once = monster.level;
    monster.reinitialize();
    assert_eq!(monster.level, once);
}

#[derive(Default, Ord, PartialOrd, Eq, PartialEq, Debug)]
pub struct Particle {
    pub energy: u32,
}

// Forced eviction on a fully checked-out pool: the evicted slot's payload
// is reset, the slot stays checked out, and the free count stays at zero —
// the slot now simply has two holders.
#[test]
fn forced_eviction_keeps_pool_exhausted() {
    let mut pool: ObjectPool<Particle> = ObjectPool::with_capacity(2);
    let first = pool.create().unwrap();
    let second = pool.create().unwrap();
    assert_eq!(pool.nb_unused(), 0);

    pool.write(&first).energy = 7;
    pool.write(&second).energy = 3;

    let evicted = pool.force_create_with_filter(|p| p.energy == 3).unwrap();
    assert_eq!(evicted.index(), second.index());
    assert_eq!(pool.read(&evicted).energy, 0);
    assert_eq!(pool.nb_unused(), 0);

    // The other slot kept its mutation.
    assert_eq!(pool.read(&first).energy, 7);
}

// Eviction by ordering picks the first slot holding a minimal payload.
#[test]
fn forced_eviction_by_ordering_picks_first_minimum() {
    let mut pool: ObjectPool<Particle> = ObjectPool::with_capacity(3);
    let a = pool.create().unwrap();
    let b = pool.create().unwrap();
    let c = pool.create().unwrap();
    pool.write(&a).energy = 5;
    pool.write(&b).energy = 2;
    pool.write(&c).energy = 2;

    let evicted = pool.force_create().unwrap();
    assert_eq!(evicted.index(), b.index());
    assert_eq!(pool.read(&evicted).energy, 0);
    assert_eq!(pool.nb_unused(), 0);
}

// Recycling restores the free count and hands later acquisitions a fresh
// payload, in the explicit-bookkeeping pool as well.
#[test]
fn recycle_restores_free_count_and_payload() {
    let mut pool: ObjectPool<Particle> = ObjectPool::with_capacity(2);
    assert_eq!(pool.nb_unused(), 2);
    let token = pool.create().unwrap();
    assert_eq!(pool.nb_unused(), 1);
    pool.write(&token).energy = 99;
    pool.recycle(token);
    assert_eq!(pool.nb_unused(), 2);

    let again = pool.create().unwrap();
    assert_eq!(again.index(), 0);
    assert_eq!(pool.read(&again).energy, 0);
}

// Releasing a handle while another external holder remains must not reset
// the payload: the reference count, not the release call, decides when the
// slot is recycled.
#[test]
fn release_with_other_holders_does_not_reset() {
    let pool = RcPool::with_capacity(1, || Monster { level: 10 });
    let first = pool.create().unwrap();
    let mut second = first.clone();
    second.borrow_mut().level = 20;

    // Three owners are live here (pool, first, second): releasing one of
    // them leaves the payload as written.
    second.drop_handle().unwrap();
    drop(second);
    assert_eq!(first.borrow().level, 20);
    assert_eq!(pool.nb_unused(), 0);

    // Releasing the last external holder reinitializes the payload.
    let mut first = first;
    first.drop_handle().unwrap();
    drop(first);
    assert_eq!(pool.nb_unused(), 1);
    assert_eq!(pool.pool_slice()[0].borrow().level, 1);
}

// The release protocol reports failure when the payload is still borrowed
// at release time, and leaves the payload untouched; once the borrow is
// gone, the release goes through.
#[test]
fn release_fails_while_payload_is_borrowed() {
    let pool = RcPool::with_capacity(1, || Monster { level: 10 });
    let mut handle = pool.create().unwrap();
    handle.borrow_mut().level = 33;

    let guard = pool.pool_slice()[0].borrow();
    assert!(handle.drop_handle().is_err());
    assert_eq!(guard.level, 33);
    drop(guard);

    assert!(handle.drop_handle().is_ok());
    assert_eq!(pool.pool_slice()[0].borrow().level, 1);
}

// When no payload satisfies the predicate, forced eviction gives nothing
// and changes nothing.
#[test]
fn forced_eviction_without_match_changes_nothing() {
    let mut pool: ObjectPool<Particle> = ObjectPool::with_capacity(2);
    let held = pool.create().unwrap();
    pool.write(&held).energy = 6;

    assert!(pool.force_create_with_filter(|p| p.energy == 4).is_none());
    assert_eq!(pool.read(&held).energy, 6);
    assert_eq!(pool.nb_unused(), 1);
}

pub struct Token {
    pub busy: bool,
}

impl Recyclable for Token {
    fn reinitialize(&mut self) {
        self.busy = false;
    }
}

// The multi-threaded pool reports exhaustion with its own description.
#[test]
fn concurrent_strict_exhaustion_error() {
    let pool = ArcPool::with_capacity(1, || Token { busy: false });
    let _held = pool.create_strict().unwrap();
    match pool.create_strict() {
        Ok(_) => panic!("the pool has a single slot and it is checked out"),
        Err(e) => assert_eq!(e.message().as_str(), "The ArcPool is out of objects !"),
    }
}

// The acquisition decision applied to an explicit observation: the first
// count reading one is chosen, and the returned handle shares that very
// slot; all-busy observations yield nothing.
#[test]
fn create_from_counts_picks_first_observed_free() {
    let pool = RcPool::with_capacity(3, || Monster { level: 10 });

    let counts: Vec<usize> = vec![2, 1, 1];
    let (index, handle) = pool.create_from_counts(&counts).unwrap();
    assert_eq!(index, 1);
    handle.borrow_mut().level = 77;
    assert_eq!(pool.pool_slice()[1].borrow().level, 77);

    let busy: Vec<usize> = vec![2, 3, 4];
    assert!(pool.create_from_counts(&busy).is_none());
}

// The same decision on the multi-threaded pool.
#[test]
fn concurrent_create_from_counts_picks_first_observed_free() {
    let pool = ArcPool::with_capacity(2, || Token { busy: false });

    let counts: Vec<usize> = vec![2, 1];
    let (index, handle) = pool.create_from_counts(&counts).unwrap();
    assert_eq!(index, 1);
    handle.write().unwrap().busy = true;
    assert!(pool.pool_slice()[1].read().unwrap().busy);
}

// The release protocol applied to explicit observations: a count other
// than two leaves the payload alone, a count of two resets it, and the
// call cannot fail when recycling is not warranted.
#[test]
fn recycle_if_last_resets_exactly_at_two() {
    let pool = RcPool::with_capacity(1, || Monster { level: 10 });
    let mut handle = pool.create().unwrap();
    handle.borrow_mut().level = 30;

    assert!(handle.recycle_if_last(3).is_ok());
    assert_eq!(handle.borrow().level, 30);

    assert!(handle.recycle_if_last(2).is_ok());
    assert_eq!(handle.borrow().level, 1);
}

// The same protocol on the multi-threaded handle.
#[test]
fn concurrent_recycle_if_last_resets_exactly_at_two() {
    let pool = ArcPool::with_capacity(1, || Token { busy: false });
    let mut handle = pool.create().unwrap();
    handle.write().unwrap().busy = true;

    assert!(handle.recycle_if_last(3).is_ok());
    assert!(handle.read().unwrap().busy);

    assert!(handle.recycle_if_last(2).is_ok());
    assert!(!handle.read().unwrap().busy);
}

// An empty pool can satisfy nothing, not even forced eviction.
#[test]
fn empty_pool_has_nothing_to_give() {
    let mut pool: ObjectPool<Particle> = ObjectPool::with_capacity(0);
    assert_eq!(pool.capacity(), 0);
    assert_eq!(pool.nb_unused(), 0);
    assert!(pool.create().is_none());
    assert!(pool.force_create().is_none());
    assert!(pool.force_create_with_filter(|_| true).is_none());
}
