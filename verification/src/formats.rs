//! The encoder registry: which source formats are taken, how each is
//! decoded, and which encoders each is given.

use crate::error::Error;
use crate::metadata::MediaType;
use vstd::prelude::*;

verus! {

/// A container format the pipeline can decode.
#[derive(Clone, Copy, Debug, PartialEq, Eq, Structural)]
pub enum ImageFormat {
    Jpeg,
    Png,
}

/// A codec that derived files are written with.
#[derive(Clone, Copy, Debug, PartialEq, Eq, Structural)]
pub enum Encoder {
    /// Lossy JPEG.
    Jpeg,
    /// Lossy WebP.
    Webp,
    /// PNG with a palette.
    Png,
}

impl Encoder {
    /// The MIME type of what the encoder writes.
    pub open spec fn mime_of(self) -> Seq<char> {
        match self {
            Encoder::Jpeg => "image/jpeg"@,
            Encoder::Webp => "image/webp"@,
            Encoder::Png => "image/png"@,
        }
    }

    /// The extension of the files the encoder writes.
    pub open spec fn ext_of(self) -> Seq<char> {
        match self {
            Encoder::Jpeg => "jpg"@,
            Encoder::Webp => "webp"@,
            Encoder::Png => "png"@,
        }
    }

    /// The MIME type of what the encoder writes.
    pub fn mime_type(self) -> (mime: &'static str)
        ensures
            mime@ == self.mime_of(),
    {
        match self {
            Encoder::Jpeg => "image/jpeg",
            Encoder::Webp => "image/webp",
            Encoder::Png => "image/png",
        }
    }

    /// The extension of the files the encoder writes.
    pub fn file_ext(self) -> (ext: &'static str)
        ensures
            ext@ == self.ext_of(),
    {
        match self {
            Encoder::Jpeg => "jpg",
            Encoder::Webp => "webp",
            Encoder::Png => "png",
        }
    }
}

/// Whether the pipeline takes uploads of this media type.
pub open spec fn is_supported(mt: MediaType) -> bool {
    mt == MediaType::Jpeg || mt == MediaType::Png
}

/// Whether a source of this media type is lossless. A lossless source is
/// neither scaled down nor given thumbnails.
pub open spec fn is_lossless(mt: MediaType) -> bool {
    mt == MediaType::Png
}

/// The encoders for a source of this media type, in the order their
/// renditions are listed; none for a media type that is not taken.
pub open spec fn encoders_of(mt: MediaType) -> Seq<Encoder> {
    match mt {
        MediaType::Jpeg => seq![Encoder::Jpeg, Encoder::Webp],
        MediaType::Png => seq![Encoder::Png],
        _ => seq![],
    }
}

/// The MIME type of a source of this media type.
pub open spec fn source_mime_of(mt: MediaType) -> Seq<char> {
    match mt {
        MediaType::Jpeg => "image/jpeg"@,
        _ => "image/png"@,
    }
}

/// Whether `r` is the refusal of media type `mt`.
pub open spec fn is_refusal<T>(r: Result<T, Error>, mt: MediaType) -> bool {
    r matches Err(Error::UnsupportedFormat { format }) && format == mt
}

/// The decoder for a media type: JPEG and PNG are decoded, any other type
/// is refused.
pub fn format_exiv2image(mt: &MediaType) -> (r: Result<ImageFormat, Error>)
    ensures
        *mt == MediaType::Jpeg ==> r == Ok::<ImageFormat, Error>(ImageFormat::Jpeg),
        *mt == MediaType::Png ==> r == Ok::<ImageFormat, Error>(ImageFormat::Png),
        !is_supported(*mt) ==> is_refusal(r, *mt),
{
    match mt {
        MediaType::Jpeg => Ok(ImageFormat::Jpeg),
        MediaType::Png => Ok(ImageFormat::Png),
        f => Err(Error::UnsupportedFormat { format: *f }),
    }
}

/// The MIME type of a source: `image/jpeg` or `image/png`; any other media
/// type is refused.
pub fn format_exiv2mime(mt: &MediaType) -> (r: Result<&'static str, Error>)
    ensures
        is_supported(*mt) ==> (r matches Ok(mime) && mime@ == source_mime_of(*mt)),
        !is_supported(*mt) ==> is_refusal(r, *mt),
{
    match mt {
        MediaType::Jpeg => Ok("image/jpeg"),
        MediaType::Png => Ok("image/png"),
        f => Err(Error::UnsupportedFormat { format: *f }),
    }
}

/// Whether a source of this media type is lossless: PNG is, nothing else.
pub fn format_is_lossless(mt: &MediaType) -> (lossless: bool)
    ensures
        lossless == is_lossless(*mt),
{
    match mt {
        MediaType::Png => true,
        _ => false,
    }
}

/// The encoders for a source: JPEG and WebP for a JPEG, the palette PNG
/// encoder for a PNG; any other media type is refused.
pub fn encoders_for_format(mt: &MediaType) -> (r: Result<Vec<Encoder>, Error>)
    ensures
        is_supported(*mt) ==> (r matches Ok(encoders) && encoders@ == encoders_of(*mt)),
        !is_supported(*mt) ==> is_refusal(r, *mt),
{
    match mt {
        MediaType::Jpeg => {
            let mut encoders = Vec::new();
            encoders.push(Encoder::Jpeg);
            encoders.push(Encoder::Webp);
            Ok(encoders)
        },
        MediaType::Png => {
            let mut encoders = Vec::new();
            encoders.push(Encoder::Png);
            Ok(encoders)
        },
        f => Err(Error::UnsupportedFormat { format: *f }),
    }
}

} // verus!
