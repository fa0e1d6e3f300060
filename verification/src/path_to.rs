use vstd::prelude::*;

use crate::adapter::TomlOf;

verus! {

/// Associates a filesystem path with the value read and decoded from the
/// file at that path. Producing the value from the path's contents is its
/// caller's business; this type only carries the result.
#[derive(Debug, Clone)]
pub struct PathTo<T> {
    /// The path the value came from, as plain text.
    pub path: String,
    /// The value produced from the file at `path`.
    pub data: T,
}

impl<T> PathTo<TomlOf<T>> {
    /// The decoded payload that both accessors project out.
    pub open spec fn payload(self) -> T {
        self.data.0
    }

    /// Returns a reference to the inner value decoded from TOML. No
    /// decoding occurs: this is a pure projection.
    pub fn data(&self) -> (r: &T)
        ensures
            *r == self.payload(),
    {
        &self.data.0
    }

    /// Consumes the wrapper and returns the inner value decoded from TOML
    /// by value. The wrapper and its adapter layer are discarded; only the
    /// payload survives.
    pub fn into_data(self) -> (r: T)
        ensures
            r == self.payload(),
    {
        self.data.0
    }
}

/// Law: borrowing the payload and taking it cannot diverge. Any value that
/// `data` may return and any value that `into_data` may return for the same
/// wrapper are one and the same: both are the wrapper's payload.
pub proof fn lemma_data_into_data_agree<T>(p: PathTo<TomlOf<T>>, borrowed: T, taken: T)
    requires
        borrowed == p.payload(),
        taken == p.payload(),
    ensures
        borrowed == taken,
{
}

} // verus!
