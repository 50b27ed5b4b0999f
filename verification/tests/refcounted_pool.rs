use std::rc::Rc;
use object_pool::{RcPool, Recyclable};

#[derive(Ord, PartialOrd, Eq, PartialEq, Debug)]
pub struct Monster {
    name: String,
    level: u8,
    hp: u32,
}

impl Default for Monster {
    fn default() -> Self {
        Monster { name: String::from("default name"), level: 10, hp: 10 }
    }
}

impl Monster {
    pub fn level_up(&mut self) {
        self.level += 1;
    }

    pub fn level(&self) -> u8 {
        self.level
    }

    pub fn hp(&self) -> u32 {
        self.hp
    }
}

impl Recyclable for Monster {
    fn reinitialize(&mut self) {
        self.level = 1;
        self.hp = 1;
    }
}

#[test]
fn refcounted_pool_allocator_test_len() {
    let simple_pool = RcPool::with_capacity(26, || Monster::default());
    assert_eq!(simple_pool.capacity(), 26);
}

#[test]
fn refcounted_pool_allocator_test_is_used_at_initialization() {
    let monster_pool = RcPool::with_capacity(14, || Monster::default());
    for monster in monster_pool.pool_slice().iter() {
        assert_eq!(Rc::strong_count(monster.as_ref()), 1);
    }
}

#[test]
fn refcounted_pool_allocator_test_drop_wrapper_around_smart_pointer() {
    let monster_pool = RcPool::with_capacity(10, || Monster::default());
    let monster = monster_pool.create().unwrap();
    assert_eq!(Rc::strong_count(monster.as_ref()), 2);
    assert_eq!(monster_pool.nb_unused(), 9);
    {
        let mut monster2 = monster_pool.create().unwrap();
        assert_eq!(monster2.borrow_mut().level(), 10);
        assert_eq!(monster2.borrow_mut().hp(), 10);
        assert_eq!(Rc::strong_count(monster2.as_ref()), 2);
        assert_eq!(monster_pool.nb_unused(), 8);

        // monster2 goes out of scope here; run the release protocol so the
        // slot is reinitialized before the handle is dropped.
        monster2.drop_handle().unwrap();
    }
    assert_eq!(monster_pool.nb_unused(), 9);
    let nb_monster_with_1_ref = monster_pool
        .pool_slice()
        .iter()
        .filter(|obj| Rc::strong_count(obj.as_ref()) == 1)
        .count();

    assert_eq!(nb_monster_with_1_ref, 9);

    let nb_monster_with_1_hp = monster_pool
        .pool_slice()
        .iter()
        .filter(|obj| obj.borrow_mut().hp() == 1)
        .count();

    assert_eq!(nb_monster_with_1_hp, 1);
}

#[test]
fn refcounted_pool_allocator_test_create_no_more_objects() {
    let monster_pool = RcPool::with_capacity(3, || Monster::default());
    let _monster = monster_pool.create().unwrap();
    let _monster2 = monster_pool.create().unwrap();
    let _monster3 = monster_pool.create().unwrap();

    assert_eq!(monster_pool.create(), None);
}

#[test]
fn refcounted_pool_allocator_test_modify_inner_value() {
    let monster_pool = RcPool::with_capacity(3, || Monster::default());
    let monster = monster_pool.create().unwrap();
    monster.borrow_mut().level_up();
    assert_eq!(monster.borrow_mut().level(), 11);
    let nb_monster_lvl_11 = monster_pool
        .pool_slice()
        .iter()
        .filter(|obj| (**obj).borrow_mut().level() > 10)
        .count();

    assert_eq!(nb_monster_lvl_11, 1);
}

#[test]
fn refcounted_pool_allocator_test_create_strict() {
    let monster_pool = RcPool::with_capacity(1, || Monster::default());
    let _monster = monster_pool.create_strict().unwrap();
    assert!(monster_pool.create_strict().is_err());
}
