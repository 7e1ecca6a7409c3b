//! The audio stream description of the audio toolbox surface, with the
//! fields the format bridge reads. Rates are whole hertz in the model, so
//! the fixed layout stays expressible without floating point.

use vstd::prelude::*;

verus! {

/// A description of a linear audio stream: the platform-fixed record a
/// format object is built from.
#[derive(Clone, Copy, PartialEq, Eq, Structural, Debug)]
pub struct StreamBasicDescription {
    /// Frames per second.
    pub sample_rate: u32,
    /// The packed four-character format code.
    pub format_id: u32,
    /// Format-specific flag bits.
    pub format_flags: u32,
    /// Channels in each frame.
    pub channels_per_frame: u32,
    /// Bits in each channel's sample.
    pub bits_per_channel: u32,
}

impl StreamBasicDescription {
    pub fn new(
        sample_rate: u32,
        format_id: u32,
        format_flags: u32,
        channels_per_frame: u32,
        bits_per_channel: u32,
    ) -> (r: StreamBasicDescription)
        ensures
            r.sample_rate == sample_rate,
            r.format_id == format_id,
            r.format_flags == format_flags,
            r.channels_per_frame == channels_per_frame,
            r.bits_per_channel == bits_per_channel,
    {
        StreamBasicDescription {
            sample_rate,
            format_id,
            format_flags,
            channels_per_frame,
            bits_per_channel,
        }
    }
}

} // verus!
