//! Fixed-capacity object pools.
//!
//! An object pool is a collection of reusable objects, allocated in
//! advance.  When a pool is created, it builds the entire collection and
//! puts every slot in the "not in use" state.  A caller asks the pool for
//! the first free slot; when the caller no longer needs the object, the
//! slot is recycled: its payload is reinitialized to a canonical fresh
//! state and the slot becomes available again.  No allocation happens
//! after construction, however many objects are created and destroyed from
//! the caller's point of view.
//!
//! Three pool variants share this design:
//!
//! - [`ObjectPool`]: slots are owned directly by the pool, checkout is
//!   tracked by explicit per-slot bookkeeping, and slots go back through
//!   an explicit recycling call.  Acquisition, forced eviction and
//!   recycling carry exact contracts over the pool's state, and the pool's
//!   invariants — exhaustion, recycling, idempotent reinitialization,
//!   forced eviction — are proved as laws beside it.
//! - [`RcPool`]: slots are shared through reference-counted handles for
//!   single-threaded use; a handle's strong reference count is the sole
//!   source of truth for "is this slot in use".
//! - [`ArcPool`]: the multi-threaded counterpart of [`RcPool`], with each
//!   slot guarded by a reader-writer lock.

mod concurrent_pool_allocator;
mod concurrent_pool_handler;
mod counts;
mod errors;
mod pool_allocator;
mod pool_object;
mod refcounted_pool_allocator;
mod refcounted_pool_handler;

pub use concurrent_pool_allocator::ArcPool;
pub use concurrent_pool_handler::ArcHandle;
pub use counts::{count_free_of, first_free_of, should_recycle, spec_count_free};
pub use errors::{PoolError, PoolResult};
pub use pool_allocator::{
    free_count, lemma_exhaustion, lemma_forced_eviction, lemma_recycling,
    lemma_reinitialize_idempotent, lemma_slot_parts, payload_order_obeyed, slot, ObjectPool,
    PoolObject, PoolObjectHandler,
};
pub use pool_object::Recyclable;
pub use refcounted_pool_allocator::RcPool;
pub use refcounted_pool_handler::RcHandle;
