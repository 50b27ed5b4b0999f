use std::sync::Arc;
use object_pool::{ArcPool, Recyclable};

#[derive(Ord, PartialOrd, Eq, PartialEq, Debug)]
pub struct Monster {
    name: String,
    level: u8,
    hp: u32,
}

impl Default for Monster {
    fn default() -> Self {
        Monster { name: String::from("default name"), level: 10, hp: 10 }
    }
}

impl Monster {
    pub fn level_up(&mut self) {
        self.level += 1;
    }

    pub fn level(&self) -> u8 {
        self.level
    }

    pub fn hp(&self) -> u32 {
        self.hp
    }
}

impl Recyclable for Monster {
    fn reinitialize(&mut self) {
        self.level = 1;
        self.hp = 1;
    }
}

#[test]
fn concurrent_pool_allocator_test_len() {
    let simple_pool = ArcPool::with_capacity(26, || Monster::default());
    assert_eq!(simple_pool.capacity(), 26);
}

#[test]
fn concurrent_pool_allocator_test_is_used_at_initialization() {
    let monster_pool = ArcPool::with_capacity(14, || Monster::default());
    for monster in monster_pool.pool_slice().iter() {
        assert_eq!(Arc::strong_count(monster.as_ref()), 1);
    }
}

#[test]
fn concurrent_pool_allocator_test_drop_wrapper_around_smart_pointer() {
    let monster_pool = ArcPool::with_capacity(10, || Monster::default());
    let monster = monster_pool.create().unwrap();
    assert_eq!(Arc::strong_count(monster.as_ref()), 2);
    assert_eq!(monster_pool.nb_unused(), 9);
    {
        let mut monster2 = monster_pool.create().unwrap();
        assert_eq!(monster2.read().unwrap().level(), 10);
        assert_eq!(monster2.read().unwrap().hp(), 10);
        assert_eq!(Arc::strong_count(monster2.as_ref()), 2);
        assert_eq!(monster_pool.nb_unused(), 8);

        // monster2 goes out of scope here; run the release protocol so the
        // slot is reinitialized before the handle is dropped.
        monster2.drop_handle().unwrap();
    }
    assert_eq!(monster_pool.nb_unused(), 9);
    let nb_monster_with_1_ref = monster_pool
        .pool_slice()
        .iter()
        .filter(|obj| Arc::strong_count(obj.as_ref()) == 1)
        .count();

    assert_eq!(nb_monster_with_1_ref, 9);

    let nb_monster_with_1_hp = monster_pool
        .pool_slice()
        .iter()
        .filter(|obj| obj.read().unwrap().hp() == 1)
        .count();

    assert_eq!(nb_monster_with_1_hp, 1);
}

#[test]
fn concurrent_pool_allocator_test_create_no_more_objects() {
    let monster_pool = ArcPool::with_capacity(3, || Monster::default());
    let _monster = monster_pool.create().unwrap();
    let _monster2 = monster_pool.create().unwrap();
    let _monster3 = monster_pool.create().unwrap();

    assert!(monster_pool.create().is_none());
}

#[test]
fn concurrent_pool_allocator_test_modify_inner_value() {
    let monster_pool = ArcPool::with_capacity(3, || Monster::default());
    let monster = monster_pool.create().unwrap();
    monster.write().unwrap().level_up();
    assert_eq!(monster.read().unwrap().level(), 11);
    let nb_monster_lvl_11 = monster_pool
        .pool_slice()
        .iter()
        .filter(|obj| obj.read().unwrap().level() > 10)
        .count();

    assert_eq!(nb_monster_lvl_11, 1);
}

// A second external holder of the same slot sees mutations made through
// the first, and releasing one of several holders leaves the payload as
// written: the reference count, not the release call, decides recycling.
// (The variant of this scenario that spawns a real thread and sends the
// observation back over a channel cannot stand here; it lives beside the
// library, in ordinary code.)
#[test]
fn concurrent_handle_mutation_visible_through_clone() {
    let pool = ArcPool::with_capacity(2, || Monster::default());
    let handle = pool.create().unwrap();
    let clone = handle.clone();

    clone.write().unwrap().level_up();
    let observed = clone.read().unwrap().level();
    assert_eq!(observed, 11);

    let mut clone = clone;
    clone.drop_handle().unwrap();
    drop(clone);
    assert_eq!(handle.read().unwrap().level(), 11);
}

#[test]
fn concurrent_pool_allocator_test_create_strict() {
    let monster_pool = ArcPool::with_capacity(1, || Monster::default());
    let _monster = monster_pool.create_strict().unwrap();
    assert!(monster_pool.create_strict().is_err());
}
