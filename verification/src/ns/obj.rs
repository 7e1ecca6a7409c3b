//! The catch-all object reference, reduced to the identity the model keeps.

use vstd::prelude::*;

verus! {

/// A reference to an arbitrary native object. The model keeps only the
/// identity a binding can compare; everything else about the object stays
/// behind the boundary.
#[derive(Clone, Copy, PartialEq, Eq, Structural, Debug)]
pub struct Id {
    /// The identity of the referenced object.
    pub raw: u64,
}

impl Id {
    /// Wraps an object identity.
    pub fn with_raw(raw: u64) -> (r: Id)
        ensures
            r.raw == raw,
    {
        Id { raw }
    }
}

} // verus!
