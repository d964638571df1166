//! Decoding an upload into pixels.

use crate::error::{DecodeError, Error};
use crate::formats::ImageFormat;
use crate::raster::{Raster, RasterView};
use image::GenericImageView;
use vstd::prelude::*;

verus! {

/// What a decoder hands out: pixels in one of the two layouts the pipeline
/// works on, or the layout it found instead.
#[derive(Debug)]
pub enum Decoded {
    Pixels(Raster),
    Unsupported(image::ColorType),
}

/// The picture that the bytes of an upload decode to, where they decode to
/// 8-bit RGB or RGBA pixels at all.
pub uninterp spec fn decoded_pixels(bytes: Seq<u8>, format: ImageFormat) -> Option<RasterView>;

/// `image::load_from_memory_with_format`. Where the outside function gives
/// an 8-bit RGB or RGBA image, the result holds its dimensions and samples,
/// and they are what [`decoded_pixels`] names; where it gives another
/// layout, `decoded_pixels` is `None`. Nothing is claimed where it gives an
/// error: the JPEG decoder works in threads of its own, and fails where the
/// machine starts none, whatever the bytes hold.
#[verifier::external_body]
fn load_from_memory(bytes: &[u8], format: ImageFormat) -> (r: Result<Decoded, image::ImageError>)
    ensures
        r matches Ok(Decoded::Pixels(img)) ==> decoded_pixels(bytes@, format) == Some(img@),
        r matches Ok(Decoded::Unsupported(_)) ==> decoded_pixels(bytes@, format) is None,
{
    let format = match format {
        ImageFormat::Jpeg => image::ImageFormat::Jpeg,
        ImageFormat::Png => image::ImageFormat::Png,
    };
    let img = image::load_from_memory_with_format(bytes, format)?;
    let alpha = match &img {
        image::DynamicImage::ImageRgb8(_) => false,
        image::DynamicImage::ImageRgba8(_) => true,
        other => return Ok(Decoded::Unsupported(other.color())),
    };
    let (width, height) = (img.width(), img.height());
    Ok(Decoded::Pixels(Raster { width, height, alpha, data: img.into_bytes() }))
}

/// Judges what a decoder handed out. Pixels are taken if they are well
/// formed; an empty picture, or a buffer that does not fit its dimensions,
/// counts as a failed decoding, as does the decoder's own error; another
/// layout is refused as an unsupported color format.
pub fn accept(outcome: Result<Decoded, image::ImageError>) -> (r: Result<Raster, Error>)
    ensures
        match outcome {
            Ok(Decoded::Pixels(img)) => if img.wf() {
                r == Ok::<Raster, Error>(img)
            } else {
                r == Err::<Raster, Error>(Error::ImageProc { source: DecodeError::Malformed })
            },
            Ok(Decoded::Unsupported(format)) => r == Err::<Raster, Error>(
                Error::UnsupportedColor { format },
            ),
            Err(e) => r == Err::<Raster, Error>(Error::ImageProc { source: DecodeError::Codec(e) }),
        },
{
    match outcome {
        Ok(Decoded::Pixels(img)) => {
            let Raster { width, height, alpha, data } = img;
            match Raster::new(width, height, alpha, data) {
                Some(img) => Ok(img),
                None => Err(Error::ImageProc { source: DecodeError::Malformed }),
            }
        },
        Ok(Decoded::Unsupported(format)) => Err(Error::UnsupportedColor { format }),
        Err(e) => Err(Error::ImageProc { source: DecodeError::Codec(e) }),
    }
}

/// Decodes an upload. On success the picture is well formed and is the one
/// that [`decoded_pixels`] names. The call fails with `UnsupportedColor`
/// only where the bytes decode to another layout, and as malformed only
/// where they decode to an empty picture. Any other failure is the
/// decoder's own, which may also strike where the bytes do hold a picture.
pub fn decode(bytes: &[u8], format: ImageFormat) -> (r: Result<Raster, Error>)
    ensures
        match r {
            Ok(img) => img.wf() && decoded_pixels(bytes@, format) == Some(img@),
            Err(Error::UnsupportedColor { .. }) => decoded_pixels(bytes@, format) is None,
            Err(Error::ImageProc { source: DecodeError::Malformed }) => decoded_pixels(
                bytes@,
                format,
            ) matches Some(v) && !v.wf(),
            Err(e) => e matches Error::ImageProc { source: DecodeError::Codec(_) },
        },
{
    accept(load_from_memory(bytes, format))
}

} // verus!
