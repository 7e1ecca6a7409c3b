//! Models of the Core Media value types: the rational timestamp and the
//! sample buffer a stream output receives.

use vstd::prelude::*;

verus! {

/// A rational time: `value` units of `1 / timescale` seconds.
#[derive(Clone, Copy, PartialEq, Eq, Structural, Debug)]
pub struct Time {
    pub value: i64,
    pub timescale: i32,
}

impl Time {
    pub fn new(value: i64, timescale: i32) -> (r: Time)
        ensures
            r.value == value,
            r.timescale == timescale,
    {
        Time { value, timescale }
    }

    /// The zero time, the configuration default.
    pub fn zero() -> (r: Time)
        ensures
            r == spec_zero_time(),
    {
        Time { value: 0, timescale: 1 }
    }
}

/// The zero time, for contracts to name.
pub open spec fn spec_zero_time() -> Time {
    Time { value: 0, timescale: 1 }
}

/// A media sample buffer, reduced to what an output callback can read of
/// it: its timestamp and its payload size.
#[derive(Clone, Copy, PartialEq, Eq, Structural, Debug)]
pub struct SampleBuf {
    /// When the sample was captured.
    pub presentation_time: Time,
    /// The payload size in bytes.
    pub data_len: usize,
}

} // verus!
