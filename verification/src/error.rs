//! Why a photograph could not be processed.

use crate::metadata::MediaType;
use vstd::prelude::*;

verus! {

/// `image::ImageError`, the failure of a decoder, carried as it came.
#[verifier::external_type_specification]
#[verifier::external_body]
pub struct ExImageError(image::ImageError);

/// `image::ColorType`, the layout a decoder found, carried as it came.
#[verifier::external_type_specification]
#[verifier::external_body]
pub struct ExColorType(image::ColorType);

/// Why the palette extractor gave up.
#[derive(Clone, Copy, Debug, PartialEq, Eq, Structural)]
pub enum PaletteFailure {
    /// It met a box of colors without any pixel in it.
    InvalidVBox,
    /// It found no place to cut a box of colors in two.
    VBoxCutFailed,
    /// The picture has more samples than the extractor can count.
    TooLarge,
}

/// Why decoding gave no usable picture.
#[derive(Debug)]
pub enum DecodeError {
    /// The decoder rejected the bytes.
    Codec(image::ImageError),
    /// The decoder handed out an empty picture, or a buffer that does not
    /// fit its dimensions.
    Malformed,
}

/// Every failure is final for the call that met it: nothing is retried and
/// no partial result is kept.
#[allow(inconsistent_fields)]
#[derive(Debug)]
pub enum Error {
    /// The bytes could not be decoded.
    ImageProc { source: DecodeError },
    /// The pixels are neither 8-bit RGB nor 8-bit RGBA.
    UnsupportedColor { format: image::ColorType },
    /// No palette could be extracted.
    PaletteExtract { source: PaletteFailure },
    /// The media type has no encoders.
    UnsupportedFormat { format: MediaType },
    /// The WebP codec failed, or could not be called.
    WebpEncode { source: crate::webp::Error },
    /// The PNG codec failed with this code.
    PngEncode { code: usize },
    /// The JPEG codec failed.
    JpegEncode,
    /// A dimension does not fit the integer type a codec takes.
    ConvertInt,
}

} // verus!
