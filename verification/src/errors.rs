use vstd::prelude::*;

verus! {

/// Failure reported by the pools' strict acquisition methods.
#[derive(Debug)]
pub enum PoolError {
    /// The pool could not satisfy the request; the payload is a
    /// human-readable description of the failure.
    PoolError(String),
}

impl PoolError {
    /// The description carried by this error, as a sequence of characters.
    pub open spec fn message_spec(self) -> Seq<char> {
        match self {
            PoolError::PoolError(s) => s@,
        }
    }

    /// The human-readable description carried by this error.
    pub fn message(&self) -> (r: &String)
        ensures
            r@ == self.message_spec(),
    {
        match self {
            PoolError::PoolError(s) => s,
        }
    }
}

/// Outcome of an operation that may fail with a [`PoolError`].
pub type PoolResult<T> = Result<T, PoolError>;

} // verus!
