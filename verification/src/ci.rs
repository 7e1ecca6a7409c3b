//! The image-rendering context, with the boolean-plus-error-slot write
//! call and its result bridge.

use vstd::prelude::*;

use crate::cg::ColorSpace;
use crate::ns::dictionary::Dictionary;
use crate::ns::error::Error;
use crate::ns::obj::Id;
use crate::ns::string::Str;
use crate::ns::url::Url;

verus! {

/// An image, reduced to the extent the write call validates.
#[derive(Clone, Copy, PartialEq, Eq, Structural, Debug)]
pub struct Image {
    pub width: usize,
    pub height: usize,
}

impl Image {
    pub fn new(width: usize, height: usize) -> (r: Image)
        ensures
            r.width == width,
            r.height == height,
    {
        Image { width, height }
    }
}

/// A pixel layout for encoded output, carried as its fixed numeric code.
#[derive(Clone, Copy, PartialEq, Eq, Structural, Debug)]
pub struct Format {
    /// The platform-defined numeric code.
    pub raw: u32,
}

impl Format {
    pub fn with_raw(raw: u32) -> (r: Format)
        ensures
            r.raw == raw,
    {
        Format { raw }
    }
}

/// Whether a write can succeed: the image must have area and the location
/// a path.
pub open spec fn spec_can_write_png(image: Image, url_path: Seq<char>) -> bool {
    image.width > 0 && image.height > 0 && url_path.len() > 0
}

/// The error the write call reports when it refuses.
pub open spec fn spec_write_error() -> Error {
    Error { domain: 3, code: 10i64 }
}

/// A rendering context.
#[derive(Debug)]
pub struct Context {
    _private: bool,
}

impl Context {
    /// The initializer behind [`Context::with_options`]. Context creation
    /// does not fail in the model, so the handle is never absent.
    pub fn init_with_options(options: Option<&Dictionary<Str, Id>>) -> (r: Option<Context>)
        ensures
            r is Some,
    {
        let _ = options;
        Some(Context { _private: false })
    }

    /// A fresh context under the given options.
    pub fn with_options(options: Option<&Dictionary<Str, Id>>) -> (r: Option<Context>)
        ensures
            r is Some,
    {
        Self::init_with_options(options)
    }

    /// The native boolean-plus-error-slot call behind
    /// [`Context::write_png_to_url`]. A true return reports success and
    /// leaves the error slot empty; a false return reports a refused
    /// write — an empty image or an empty path — and fills the slot.
    fn write_png_to_url_format_colorspace_options_err(
        &self,
        image: &Image,
        url: &Url,
        format: Format,
        color_space: &ColorSpace,
        options: &Dictionary<Str, Id>,
        error: &mut Option<Error>,
    ) -> (r: bool)
        ensures
            r == spec_can_write_png(*image, url@),
            r ==> *final(error) is None,
            !r ==> *final(error) == Some(spec_write_error()),
    {
        let _ = format;
        let _ = color_space;
        let _ = options;
        if image.width > 0 && image.height > 0 && url.path().len() > 0 {
            *error = None;
            true
        } else {
            *error = Some(Error::new(3, 10));
            false
        }
    }

    /// Encodes an image and writes it to a location: success exactly when
    /// the image has area and the location a path, else the error the
    /// native side put in the slot.
    pub fn write_png_to_url(
        &self,
        image: &Image,
        url: &Url,
        format: Format,
        color_space: &ColorSpace,
        options: &Dictionary<Str, Id>,
    ) -> (r: Result<(), Error>)
        ensures
            r is Ok <==> spec_can_write_png(*image, url@),
            r is Err ==> r == Err::<(), Error>(spec_write_error()),
    {
        let mut error: Option<Error> = None;
        let res = self.write_png_to_url_format_colorspace_options_err(
            image,
            url,
            format,
            color_space,
            options,
            &mut error,
        );
        if res {
            Ok(())
        } else {
            match error {
                Some(e) => Err(e),
                None => unreached(),
            }
        }
    }
}

} // verus!
