//! The Core Video pixel format code, a four-character constant whose
//! numeric value the platform fixes.

use vstd::prelude::*;

verus! {

/// A pixel format, carried as its fixed four-character code.
#[derive(Clone, Copy, PartialEq, Eq, Structural, Debug)]
pub struct PixelFormat {
    /// The packed four-character code.
    pub raw: u32,
}

impl PixelFormat {
    /// Packed little-endian ARGB8888, the code `BGRA`.
    pub fn bgra32() -> (r: PixelFormat)
        ensures
            r.raw == 0x42475241,
    {
        PixelFormat { raw: 0x42475241 }
    }

    /// Packed little-endian ARGB2101010, the code `l10r`.
    pub fn l10r() -> (r: PixelFormat)
        ensures
            r.raw == 0x6C313072,
    {
        PixelFormat { raw: 0x6C313072 }
    }

    /// Two-plane video-range YCbCr 4:2:0, the code `420v`.
    pub fn yuv420v() -> (r: PixelFormat)
        ensures
            r.raw == 0x34323076,
    {
        PixelFormat { raw: 0x34323076 }
    }

    /// Two-plane full-range YCbCr 4:2:0, the code `420f`.
    pub fn yuv420f() -> (r: PixelFormat)
        ensures
            r.raw == 0x34323066,
    {
        PixelFormat { raw: 0x34323066 }
    }
}

} // verus!
