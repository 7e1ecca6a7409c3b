//! The dispatch queue a stream output's callbacks are delivered on,
//! reduced to the identity the model compares.

use vstd::prelude::*;

verus! {

/// A dispatch queue. The model keeps only its identity; scheduling stays
/// with the native side.
#[derive(Clone, Copy, PartialEq, Eq, Structural, Debug)]
pub struct Queue {
    /// The identity of the queue.
    pub raw: u64,
}

impl Queue {
    /// A serial queue that drains an autorelease scope between callbacks.
    pub fn serial_with_ar_pool() -> (r: Queue)
        ensures
            r.raw == 1,
    {
        Queue { raw: 1 }
    }
}

} // verus!
