use vstd::prelude::*;

verus! {

/// Capability that a payload type must provide so that a pool of
/// [`RcHandle`](crate::RcHandle)s or [`ArcHandle`](crate::ArcHandle)s can
/// recycle it.
///
/// A pooled object must be *recyclable*: when the last external holder of a
/// slot releases it, the slot's payload is restored to whatever state the
/// type's author defines as "fresh", so that no residual effect of the prior
/// use is observable through a later acquisition.
pub trait Recyclable {
    /// Restore `self` to its canonical fresh state.
    ///
    /// This runs inside the handles' release protocol, where no error
    /// channel exists, so it must neither fail nor unwind; a fallible
    /// implementation has to fall back to a safe default internally.
    fn reinitialize(&mut self);
}

} // verus!
