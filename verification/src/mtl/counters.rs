//! The fixed layout a counter sample resolves to.

use vstd::prelude::*;

verus! {

/// One resolved statistic sample: the platform-fixed eight-field record.
#[derive(Clone, Copy, PartialEq, Eq, Structural, Debug)]
pub struct CounterResultStatistic {
    pub tessellation_input_patches: u64,
    pub vertex_invocations: u64,
    pub post_tessellation_vertex_invocations: u64,
    pub clipper_invocations: u64,
    pub clipper_primitives_out: u64,
    pub fragment_invocations: u64,
    pub fragments_passed: u64,
    pub compute_kernel_invocations: u64,
}

} // verus!
