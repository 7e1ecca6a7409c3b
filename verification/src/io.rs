//! The shared-memory surface a texture can be backed by, reduced to the
//! fields a binding reads.

use vstd::prelude::*;

verus! {

/// A hardware surface: fixed dimensions and a fixed number of planes.
#[derive(Clone, Copy, PartialEq, Eq, Structural, Debug)]
pub struct Surface {
    pub width: usize,
    pub height: usize,
    /// How many planes the surface holds; a packed surface has one.
    pub plane_count: usize,
}

impl Surface {
    pub fn new(width: usize, height: usize, plane_count: usize) -> (r: Surface)
        ensures
            r.width == width,
            r.height == height,
            r.plane_count == plane_count,
    {
        Surface { width, height, plane_count }
    }
}

} // verus!
