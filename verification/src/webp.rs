//! What is decided around a call of the WebP codec: the arguments it is
//! given, and what its answer means. The codec itself is foreign code that
//! the caller runs.

use crate::raster::{Raster, RasterView};
use vstd::prelude::*;

verus! {

/// Why a WebP encoding did not come about.
#[derive(Clone, Copy, Debug, PartialEq, Eq, Structural)]
pub enum Error {
    /// A dimension or the row stride does not fit the codec's signed
    /// 32-bit arguments.
    ConvertSigned,
    /// The codec reported failure; `ret` is what it returned.
    Encode { ret: usize },
}

/// How the codec is asked to compress. A lossy quality is given in
/// thousandths of the codec's quality unit: `Lossy(53100)` asks for 53.1.
#[derive(Clone, Copy, Debug, PartialEq, Eq, Structural)]
pub enum Quality {
    Lossless,
    Lossy(i64),
}

/// The arguments of one codec call, besides the samples themselves.
#[derive(Clone, Copy, Debug, PartialEq, Eq, Structural)]
pub struct Request {
    /// Whether the samples are RGBA rather than RGB.
    pub alpha: bool,
    pub width: i32,
    pub height: i32,
    /// Samples from the start of one row to the start of the next.
    pub stride: i32,
    pub quality: Quality,
}

/// Whether a picture of these dimensions can be handed to the codec.
pub open spec fn fits_codec(width: int, height: int, channels: int) -> bool {
    width <= i32::MAX && height <= i32::MAX && width * channels <= i32::MAX
}

/// The codec call for a picture, or `ConvertSigned` where the picture does
/// not fit the codec's integers.
pub open spec fn request_of(img: RasterView, quality: Quality) -> Result<Request, Error> {
    if fits_codec(img.width, img.height, img.channels()) {
        Ok(
            Request {
                alpha: img.alpha,
                width: img.width as i32,
                height: img.height as i32,
                stride: (img.width * img.channels()) as i32,
                quality,
            },
        )
    } else {
        Err(Error::ConvertSigned)
    }
}

/// Prepares the codec call for `img`: its dimensions and row stride as the
/// signed integers the codec takes. Fails with [`Error::ConvertSigned`]
/// exactly when one of the three does not fit.
pub fn encode(img: &Raster, quality: Quality) -> (r: Result<Request, Error>)
    ensures
        r == request_of(img@, quality),
{
    let limit: u32 = 0x7fff_ffff;
    if img.width > limit || img.height > limit {
        return Err(Error::ConvertSigned);
    }
    let channels = img.channels();
    let stride: u64 = img.width as u64 * channels as u64;
    if stride > limit as u64 {
        return Err(Error::ConvertSigned);
    }
    Ok(
        Request {
            alpha: img.alpha,
            width: img.width as i32,
            height: img.height as i32,
            stride: stride as i32,
            quality,
        },
    )
}

/// What the codec's answer amounts to: the bytes it wrote, if it returned a
/// positive size and a buffer.
pub open spec fn finished(ret: usize, buffer: Option<Seq<u8>>) -> Result<Seq<u8>, Error> {
    match buffer {
        Some(bytes) => if ret >= 1 {
            Ok(bytes)
        } else {
            Err(Error::Encode { ret })
        },
        None => Err(Error::Encode { ret }),
    }
}

/// Judges the codec's answer. A return value below one, or no buffer,
/// means failure, whatever the other says.
pub fn finish(ret: usize, buffer: &Option<Vec<u8>>) -> (r: Result<Vec<u8>, Error>)
    ensures
        match r {
            Ok(bytes) => finished(ret, option_view(*buffer)) == Ok::<Seq<u8>, Error>(bytes@),
            Err(e) => finished(ret, option_view(*buffer)) == Err::<Seq<u8>, Error>(e),
        },
{
    match buffer {
        Some(bytes) => {
            if ret >= 1 {
                Ok(bytes.clone())
            } else {
                Err(Error::Encode { ret })
            }
        },
        None => Err(Error::Encode { ret }),
    }
}

/// The contents of an optional buffer.
pub open spec fn option_view(buffer: Option<Vec<u8>>) -> Option<Seq<u8>> {
    match buffer {
        Some(bytes) => Some(bytes@),
        None => None,
    }
}

} // verus!
