//! Models of the Core Foundation surface: the allocator token and the
//! string objects built over explicit byte encodings.

pub mod string;

use vstd::prelude::*;

verus! {

/// An allocator argument. The model has a single allocation behavior, so
/// the token only records that a caller passed one; `None` stands for the
/// default allocator, as in the native convention.
pub struct Allocator {}

impl Allocator {
    pub fn new() -> (r: Allocator) {
        Allocator {}
    }
}

} // verus!
