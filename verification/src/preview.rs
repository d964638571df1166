//! The tiny preview: a picture small enough to travel inside the
//! descriptor.

use crate::codecs::CodecOutput;
use crate::error::Error;
use crate::quality::PREVIEW_QUALITY;
use crate::raster::{Raster, RasterView};
use crate::resample::{resize_exact, FilterType};
use crate::webp;
use vstd::prelude::*;
use vstd::string::StringExecFns;

verus! {

/// The width and the height of the preview picture.
pub const PREVIEW_SIZE: u32 = 48;

/// The character for six bits in the standard base64 alphabet.
pub open spec fn base64_char(bits: int) -> char {
    "ABCDEFGHIJKLMNOPQRSTUVWXYZabcdefghijklmnopqrstuvwxyz0123456789+/"@[bits]
}

/// Standard base64 with padding: each three bytes give four characters; a
/// rest of one or two bytes gives two or three, filled up with `=`.
pub open spec fn base64_of(bytes: Seq<u8>) -> Seq<char>
    decreases bytes.len(),
{
    if bytes.len() == 0 {
        seq![]
    } else if bytes.len() == 1 {
        let a = bytes[0] as int;
        seq![base64_char(a / 4), base64_char(a % 4 * 16), '=', '=']
    } else if bytes.len() == 2 {
        let a = bytes[0] as int;
        let b = bytes[1] as int;
        seq![base64_char(a / 4), base64_char(a % 4 * 16 + b / 16), base64_char(b % 16 * 4), '=']
    } else {
        let a = bytes[0] as int;
        let b = bytes[1] as int;
        let c = bytes[2] as int;
        seq![
            base64_char(a / 4),
            base64_char(a % 4 * 16 + b / 16),
            base64_char(b % 16 * 4 + c / 64),
            base64_char(c % 64),
        ] + base64_of(bytes.skip(3))
    }
}

/// The data URI of a WebP picture.
pub open spec fn preview_uri(webp: Seq<u8>) -> Seq<char> {
    "data:image/webp;base64,"@ + base64_of(webp)
}

/// What the preview is for a codec's answer: its data URI, or the codec's
/// failure.
pub open spec fn tiny_preview_of(output: CodecOutput) -> Result<Seq<char>, webp::Error> {
    match webp::finished(output.code, webp::option_view(output.bytes)) {
        Ok(bytes) => Ok(preview_uri(bytes)),
        Err(e) => Err(e),
    }
}

/// `base64::encode`: standard base64 with padding. A slice is never longer
/// than `isize::MAX` bytes, so the size of the result always fits.
#[verifier::external_body]
fn base64_encode(bytes: &[u8]) -> (text: String)
    ensures
        text@ == base64_of(bytes@),
{
    base64::encode(bytes)
}

/// Whether the preview of a picture can be rendered in memory: the
/// resampler holds a picture as wide as the argument and as high as the
/// preview.
pub open spec fn preview_fits(img: RasterView) -> bool {
    img.width * PREVIEW_SIZE * 4 <= usize::MAX
}

/// Tells whether the preview of `img` can be rendered in memory.
pub fn can_preview(img: &Raster) -> (fits: bool)
    ensures
        fits == preview_fits(img@),
{
    img.width as u64 * 192 <= usize::MAX as u64
}

/// The picture the preview is encoded from: `img` scaled to
/// [`PREVIEW_SIZE`] pixels of width and of height, whatever its aspect
/// ratio.
pub fn preview_image(img: &Raster) -> (thumb: Raster)
    requires
        img.wf(),
        preview_fits(img@),
    ensures
        thumb.wf(),
        thumb.alpha == img.alpha,
        thumb.width == PREVIEW_SIZE,
        thumb.height == PREVIEW_SIZE,
{
    resize_exact(img, PREVIEW_SIZE, PREVIEW_SIZE, FilterType::Gaussian)
}

/// What the WebP codec is asked for the preview picture: a lossy encoding
/// at [`PREVIEW_QUALITY`].
pub open spec fn preview_request_of(thumb: RasterView) -> Result<webp::Request, Error> {
    match webp::request_of(thumb, webp::Quality::Lossy(PREVIEW_QUALITY)) {
        Ok(req) => Ok(req),
        Err(source) => Err(Error::WebpEncode { source }),
    }
}

/// What the WebP codec is asked for the preview picture. Fails with
/// `WebpEncode` exactly when the picture does not fit the codec's integers,
/// which a picture made by [`preview_image`] always does.
pub fn preview_request(thumb: &Raster) -> (r: Result<webp::Request, Error>)
    requires
        thumb.wf(),
    ensures
        r == preview_request_of(thumb@),
{
    match webp::encode(thumb, webp::Quality::Lossy(PREVIEW_QUALITY)) {
        Ok(req) => Ok(req),
        Err(source) => Err(Error::WebpEncode { source }),
    }
}

/// Makes the tiny preview from the codec's answer: a `data:` URI holding
/// the WebP bytes in base64. Fails with `WebpEncode` exactly when the
/// codec failed.
pub fn make_tiny_preview(output: &CodecOutput) -> (r: Result<String, Error>)
    ensures
        match r {
            Ok(uri) => tiny_preview_of(*output) == Ok::<Seq<char>, webp::Error>(uri@),
            Err(e) => e matches Error::WebpEncode { source } && tiny_preview_of(*output)
                == Err::<Seq<char>, webp::Error>(source),
        },
{
    match webp::finish(output.code, &output.bytes) {
        Ok(bytes) => {
            let mut uri = String::from_str("data:image/webp;base64,");
            let text = base64_encode(bytes.as_slice());
            uri.append(text.as_str());
            Ok(uri)
        },
        Err(source) => Err(Error::WebpEncode { source }),
    }
}

} // verus!
