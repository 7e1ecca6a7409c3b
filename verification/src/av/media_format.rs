//! The media, range and file-type constants of the audio-visual surface.
//! Each platform constant is a distinct global string object; the model
//! reduces each to a distinct token.

use vstd::prelude::*;

verus! {
/// A kind of media a track can hold.
#[derive(Clone, Copy, PartialEq, Eq, Structural, Debug)]
pub struct MediaType {
    /// The identity of the platform constant.
    pub raw: u64,
}

impl MediaType {
    /// The media contains video.
    pub fn video() -> (r: MediaType)
        ensures
            r.raw == 1,
    {
        MediaType { raw: 1 }
    }

    /// The media contains audio.
    pub fn audio() -> (r: MediaType)
        ensures
            r.raw == 2,
    {
        MediaType { raw: 2 }
    }

    /// The media contains text.
    pub fn text() -> (r: MediaType)
        ensures
            r.raw == 3,
    {
        MediaType { raw: 3 }
    }

    /// The media contains closed-caption content.
    pub fn closed_caption() -> (r: MediaType)
        ensures
            r.raw == 4,
    {
        MediaType { raw: 4 }
    }

    /// The media contains subtitles.
    pub fn subtitle() -> (r: MediaType)
        ensures
            r.raw == 5,
    {
        MediaType { raw: 5 }
    }

    /// The media contains a time code.
    pub fn timecode() -> (r: MediaType)
        ensures
            r.raw == 6,
    {
        MediaType { raw: 6 }
    }

    /// The media contains metadata.
    pub fn metadata() -> (r: MediaType)
        ensures
            r.raw == 7,
    {
        MediaType { raw: 7 }
    }

    /// The media contains muxed media.
    pub fn muxed() -> (r: MediaType)
        ensures
            r.raw == 8,
    {
        MediaType { raw: 8 }
    }

    /// The media contains metadata objects.
    pub fn metadata_object() -> (r: MediaType)
        ensures
            r.raw == 9,
    {
        MediaType { raw: 9 }
    }

    /// The media contains depth data.
    pub fn depth_data() -> (r: MediaType)
        ensures
            r.raw == 10,
    {
        MediaType { raw: 10 }
    }

}

/// A video variant's dynamic range.
#[derive(Clone, Copy, PartialEq, Eq, Structural, Debug)]
pub struct VideoRange {
    /// The identity of the platform constant.
    pub raw: u64,
}

impl VideoRange {
    /// Standard-dynamic-range video.
    pub fn sdr() -> (r: VideoRange)
        ensures
            r.raw == 1,
    {
        VideoRange { raw: 1 }
    }

    /// Hybrid-Log Gamma high-dynamic-range video.
    pub fn hlg() -> (r: VideoRange)
        ensures
            r.raw == 2,
    {
        VideoRange { raw: 2 }
    }

    /// Perceptual Quantizer high-dynamic-range video.
    pub fn pq() -> (r: VideoRange)
        ensures
            r.raw == 3,
    {
        VideoRange { raw: 3 }
    }

}

/// A container file format, identified by its uniform type identifier.
#[derive(Clone, Copy, PartialEq, Eq, Structural, Debug)]
pub struct FileType {
    /// The identity of the platform constant.
    pub raw: u64,
}

impl FileType {
    /// The QuickTime movie format, the type `com.apple.quicktime-movie` (.mov, .qt).
    pub fn qt() -> (r: FileType)
        ensures
            r.raw == 1,
    {
        FileType { raw: 1 }
    }

    /// The MPEG-4 format, the type `public.mpeg-4` (.mp4).
    pub fn mp4() -> (r: FileType)
        ensures
            r.raw == 2,
    {
        FileType { raw: 2 }
    }

    /// The iTunes video format (.m4v).
    pub fn m4v() -> (r: FileType)
        ensures
            r.raw == 3,
    {
        FileType { raw: 3 }
    }

    /// The Apple m4a audio format (.m4a).
    pub fn m4a() -> (r: FileType)
        ensures
            r.raw == 4,
    {
        FileType { raw: 4 }
    }

    /// The 3GPP format (.3gp, .3gpp, .sdv).
    pub fn _3gpp() -> (r: FileType)
        ensures
            r.raw == 5,
    {
        FileType { raw: 5 }
    }

    /// The 3GPP2 format (.3g2, .3gp2).
    pub fn _3gpp2() -> (r: FileType)
        ensures
            r.raw == 6,
    {
        FileType { raw: 6 }
    }

    /// The CoreAudio file format (.caf).
    pub fn caf() -> (r: FileType)
        ensures
            r.raw == 7,
    {
        FileType { raw: 7 }
    }

    /// The waveform audio format (.wav, .wave, .bwf).
    pub fn wav() -> (r: FileType)
        ensures
            r.raw == 8,
    {
        FileType { raw: 8 }
    }

    /// The AIFF audio format (.aif, .aiff).
    pub fn aif() -> (r: FileType)
        ensures
            r.raw == 9,
    {
        FileType { raw: 9 }
    }

    /// The compressed AIFF audio format (.aifc, .cdda).
    pub fn aifc() -> (r: FileType)
        ensures
            r.raw == 10,
    {
        FileType { raw: 10 }
    }

    /// The adaptive multi-rate audio format (.amr).
    pub fn amr() -> (r: FileType)
        ensures
            r.raw == 11,
    {
        FileType { raw: 11 }
    }

    /// The MPEG layer 3 audio format (.mp3).
    pub fn mp3() -> (r: FileType)
        ensures
            r.raw == 12,
    {
        FileType { raw: 12 }
    }

    /// The Sun/NeXT audio format (.au, .snd).
    pub fn sun_au() -> (r: FileType)
        ensures
            r.raw == 13,
    {
        FileType { raw: 13 }
    }

    /// The AC-3 audio format (.ac3).
    pub fn ac3() -> (r: FileType)
        ensures
            r.raw == 14,
    {
        FileType { raw: 14 }
    }

    /// The enhanced AC-3 audio format (.eac3).
    pub fn eac3() -> (r: FileType)
        ensures
            r.raw == 15,
    {
        FileType { raw: 15 }
    }

    /// The JPEG still-image format (.jpg, .jpeg).
    pub fn jpeg() -> (r: FileType)
        ensures
            r.raw == 16,
    {
        FileType { raw: 16 }
    }

    /// The Adobe digital negative format (.dng).
    pub fn dng() -> (r: FileType)
        ensures
            r.raw == 17,
    {
        FileType { raw: 17 }
    }

    /// The high-efficiency image format with HEVC images (.heic).
    pub fn heic() -> (r: FileType)
        ensures
            r.raw == 18,
    {
        FileType { raw: 18 }
    }

    /// The high-efficiency image format with AVC images (.avci).
    pub fn avci() -> (r: FileType)
        ensures
            r.raw == 19,
    {
        FileType { raw: 19 }
    }

    /// The high-efficiency image format (.heif).
    pub fn heif() -> (r: FileType)
        ensures
            r.raw == 20,
    {
        FileType { raw: 20 }
    }

    /// The tagged image format (.tiff, .tif).
    pub fn tiff() -> (r: FileType)
        ensures
            r.raw == 21,
    {
        FileType { raw: 21 }
    }

    /// The iTunes timed-text caption format (.itt).
    pub fn apple_itt() -> (r: FileType)
        ensures
            r.raw == 22,
    {
        FileType { raw: 22 }
    }

    /// The Scenarist closed-caption format (.scc).
    pub fn scc() -> (r: FileType)
        ensures
            r.raw == 23,
    {
        FileType { raw: 23 }
    }

}

} // verus!
