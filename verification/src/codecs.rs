//! The three encoders, as far as they are this library's business: what
//! each codec is asked to do for a picture, and what its answer means.
//! Running a codec is left to the caller.

use crate::error::Error;
use crate::formats::Encoder;
use crate::quality::{jpeg_quality, quality_bonus_of, webp_quality, JPEG_QUALITY, WEBP_QUALITY};
use crate::raster::{Raster, RasterView};
use crate::webp;
use vstd::prelude::*;

verus! {

/// How many colors the palette of a PNG rendition has at most.
pub const PNG_QUANTIZE_COLORS: usize = 69;

/// A color of four 8-bit samples, alpha last.
#[derive(Clone, Copy, Debug, PartialEq, Eq, Structural)]
pub struct Rgba {
    pub r: u8,
    pub g: u8,
    pub b: u8,
    pub a: u8,
}

/// The color space the JPEG codec is told its input is in.
#[derive(Clone, Copy, Debug, PartialEq, Eq, Structural)]
pub enum JpegColorSpace {
    /// Three samples per pixel: red, green, blue.
    Rgb,
    /// Four samples per pixel: red, green, blue, alpha.
    ExtRgba,
}

/// The arguments of one call of the JPEG codec, besides the samples.
#[derive(Clone, Copy, Debug, PartialEq, Eq, Structural)]
pub struct JpegRequest {
    pub color_space: JpegColorSpace,
    pub width: usize,
    pub height: usize,
    /// In thousandths of the codec's quality unit.
    pub quality: i64,
}

/// A picture reduced to a palette: one palette index for each pixel, row by
/// row.
#[derive(Clone, Debug, PartialEq, Eq)]
pub struct IndexedImage {
    pub palette: Vec<Rgba>,
    pub pixels: Vec<u8>,
    pub width: usize,
    pub height: usize,
}

impl IndexedImage {
    /// The palette fits an 8-bit index, there is one index for each pixel,
    /// and every index names a palette entry.
    pub open spec fn wf(&self) -> bool {
        &&& 0 < self.palette@.len() <= 256
        &&& self.pixels@.len() == self.width * self.height
        &&& forall|i: int|
            0 <= i < self.pixels@.len() ==> (#[trigger] self.pixels@[i] as int)
                < self.palette@.len()
    }
}

/// What a codec is asked to encode.
#[derive(Clone, Debug, PartialEq, Eq)]
pub enum EncodeRequest {
    Jpeg(JpegRequest),
    Webp(webp::Request),
    Png(IndexedImage),
}

/// What a codec handed back: its return code and, unless it failed, the
/// bytes it wrote.
#[derive(Clone, Debug, PartialEq, Eq)]
pub struct CodecOutput {
    pub code: usize,
    pub bytes: Option<Vec<u8>>,
}

/// One encoded rendition.
#[derive(Clone, Debug, PartialEq, Eq)]
pub struct EncodedImg {
    pub bytes: Vec<u8>,
    pub mime_type: &'static str,
    pub file_ext: &'static str,
}

impl RasterView {
    /// Pixel `i`, counting row by row, with its alpha; a picture without
    /// alpha is opaque.
    pub open spec fn rgba(self, i: int) -> Rgba {
        let at = i * self.channels();
        Rgba {
            r: self.data[at],
            g: self.data[at + 1],
            b: self.data[at + 2],
            a: if self.alpha {
                self.data[at + 3]
            } else {
                255u8
            },
        }
    }

    /// All pixels with their alpha, row by row.
    pub open spec fn rgba_pixels(self) -> Seq<Rgba> {
        Seq::new((self.width * self.height) as nat, |i: int| self.rgba(i))
    }
}

/// Lists the pixels of `img` as RGBA colors, row by row.
pub fn rgba_pixels(img: &Raster) -> (pixels: Vec<Rgba>)
    requires
        img.wf(),
    ensures
        pixels@ == img@.rgba_pixels(),
{
    let channels = img.channels();
    let count = img.data.len() / channels;
    proof {
        vstd::arithmetic::div_mod::lemma_fundamental_div_mod_converse(
            img.data@.len() as int,
            channels as int,
            img.width * img.height,
            0,
        );
    }
    let mut pixels: Vec<Rgba> = Vec::new();
    let mut i: usize = 0;
    while i < count
        invariant
            i <= count,
            count == img.width * img.height,
            channels == img@.channels(),
            img.data@.len() == count * channels,
            pixels@.len() == i,
            forall|k: int| 0 <= k < i ==> pixels@[k] == img@.rgba(k),
        decreases count - i,
    {
        assert(img.data.len() <= usize::MAX);
        let at = i * channels;
        let a = if img.alpha {
            img.data[at + 3]
        } else {
            255
        };
        pixels.push(Rgba { r: img.data[at], g: img.data[at + 1], b: img.data[at + 2], a });
        i = i + 1;
    }
    pixels
}

/// `exoquant::convert_to_indexed` with the K-means optimizer and the
/// checkered Floyd-Steinberg ditherer. Of its result only this is claimed:
/// the palette is not empty and has at most `num_colors` entries, there is
/// one index for each pixel, and every index names a palette entry. Which
/// colors and which indices come out is left open: the outside function
/// walks a hash map.
///
/// The ditherer divides by `width` and keeps `2 * width` running errors.
#[verifier::external_body]
fn convert_to_indexed(pixels: &Vec<Rgba>, width: usize, num_colors: usize) -> (r: (
    Vec<Rgba>,
    Vec<u8>,
))
    requires
        0 < width,
        2 * width <= usize::MAX,
        0 < num_colors <= 256,
    ensures
        0 < r.0@.len() <= num_colors,
        r.1@.len() == pixels@.len(),
        forall|i: int| 0 <= i < r.1@.len() ==> (#[trigger] r.1@[i] as int) < r.0@.len(),
{
    let colors: Vec<exoquant::Color> = pixels.iter().map(
        |p| exoquant::Color::new(p.r, p.g, p.b, p.a),
    ).collect();
    let (palette, indexed) = exoquant::convert_to_indexed(
        &colors,
        width,
        num_colors,
        &exoquant::optimizer::KMeans,
        &exoquant::ditherer::FloydSteinberg::checkered(),
    );
    (palette.iter().map(|c| Rgba { r: c.r, g: c.g, b: c.b, a: c.a }).collect(), indexed)
}

/// Converts a dimension to the integer type the PNG codec takes, or fails
/// with `ConvertInt` where it does not fit.
pub fn codec_size(n: u32) -> (r: Result<usize, Error>)
    ensures
        n <= usize::MAX ==> r == Ok::<usize, Error>(n as usize),
        n > usize::MAX ==> r == Err::<usize, Error>(Error::ConvertInt),
{
    if n as u64 <= usize::MAX as u64 {
        Ok(n as usize)
    } else {
        Err(Error::ConvertInt)
    }
}

/// What the JPEG codec is asked for a picture: the color space of its
/// layout, its dimensions, and the base quality with the bonus for its
/// width.
pub open spec fn jpeg_request_of(img: RasterView) -> JpegRequest {
    JpegRequest {
        color_space: if img.alpha {
            JpegColorSpace::ExtRgba
        } else {
            JpegColorSpace::Rgb
        },
        width: img.width as usize,
        height: img.height as usize,
        quality: (JPEG_QUALITY + quality_bonus_of(img.width)) as i64,
    }
}

/// What the WebP codec is asked for a picture: a lossy encoding at the base
/// quality with the bonus for its width; `WebpEncode` where the picture
/// does not fit the codec's integers.
pub open spec fn webp_request_of(img: RasterView) -> Result<webp::Request, Error> {
    match webp::request_of(
        img,
        webp::Quality::Lossy((WEBP_QUALITY + quality_bonus_of(img.width)) as i64),
    ) {
        Ok(req) => Ok(req),
        Err(source) => Err(Error::WebpEncode { source }),
    }
}

/// Whether `request` is what `encoder` is to be asked for the picture
/// `img`. For the PNG encoder any well-formed reduction of the picture's
/// size to at most [`PNG_QUANTIZE_COLORS`] colors will do.
pub open spec fn request_matches(encoder: Encoder, img: RasterView, request: EncodeRequest) -> bool {
    match encoder {
        Encoder::Jpeg => request matches EncodeRequest::Jpeg(req) && req == jpeg_request_of(img),
        Encoder::Webp => request matches EncodeRequest::Webp(req) && webp_request_of(img) == Ok::<
            webp::Request,
            Error,
        >(req),
        Encoder::Png => request matches EncodeRequest::Png(indexed) && indexed.wf()
            && indexed.width == img.width && indexed.height == img.height
            && indexed.palette@.len() <= PNG_QUANTIZE_COLORS,
    }
}

/// Whether `encoder` can be asked to encode the picture `img` at all.
pub open spec fn can_request(encoder: Encoder, img: RasterView) -> bool {
    match encoder {
        Encoder::Jpeg => true,
        Encoder::Webp => webp::fits_codec(img.width, img.height, img.channels()),
        Encoder::Png => img.width <= usize::MAX && img.height <= usize::MAX,
    }
}

/// What a codec's answer amounts to for `encoder`: the encoded bytes, or
/// the encoder's failure. The JPEG and PNG codecs have failed when they
/// hand back no bytes; the WebP codec also when it returns no size.
pub open spec fn encoded_of(encoder: Encoder, output: CodecOutput) -> Result<Seq<u8>, Error> {
    match encoder {
        Encoder::Jpeg => match output.bytes {
            Some(bytes) => Ok(bytes@),
            None => Err(Error::JpegEncode),
        },
        Encoder::Webp => match webp::finished(output.code, webp::option_view(output.bytes)) {
            Ok(bytes) => Ok(bytes),
            Err(source) => Err(Error::WebpEncode { source }),
        },
        Encoder::Png => match output.bytes {
            Some(bytes) => Ok(bytes@),
            None => Err(Error::PngEncode { code: output.code }),
        },
    }
}

/// What the JPEG codec is asked for `img`.
pub fn encode_jpeg(img: &Raster) -> (req: JpegRequest)
    requires
        img.wf(),
    ensures
        req == jpeg_request_of(img@),
{
    JpegRequest {
        color_space: if img.alpha {
            JpegColorSpace::ExtRgba
        } else {
            JpegColorSpace::Rgb
        },
        width: img.width as usize,
        height: img.height as usize,
        quality: jpeg_quality(img.width),
    }
}

/// What the WebP codec is asked for `img`. Fails with `WebpEncode` exactly
/// when the picture does not fit the codec's integers.
pub fn encode_webp(img: &Raster) -> (r: Result<webp::Request, Error>)
    requires
        img.wf(),
    ensures
        r == webp_request_of(img@),
{
    match webp::encode(img, webp::Quality::Lossy(webp_quality(img.width))) {
        Ok(req) => Ok(req),
        Err(source) => Err(Error::WebpEncode { source }),
    }
}

/// What the PNG codec is asked for `img`: its pixels reduced to a palette
/// of at most [`PNG_QUANTIZE_COLORS`] colors, with its dimensions. The
/// palette and the indices are whatever the quantizer chose; the result is
/// well formed in every case. Fails with `ConvertInt` exactly when a
/// dimension does not fit the codec's integers.
pub fn encode_png(img: &Raster) -> (r: Result<IndexedImage, Error>)
    requires
        img.wf(),
    ensures
        match r {
            Ok(indexed) => can_request(Encoder::Png, img@) && request_matches(
                Encoder::Png,
                img@,
                EncodeRequest::Png(indexed),
            ),
            Err(e) => !can_request(Encoder::Png, img@) && e matches Error::ConvertInt,
        },
{
    let pixels = rgba_pixels(img);
    let width = codec_size(img.width)?;
    let height = codec_size(img.height)?;
    proof {
        assert(img.width * img.height * img@.channels() >= img.width * 2) by (nonlinear_arith)
            requires
                img.height >= 1,
                img@.channels() >= 3,
                img.width >= 0,
        ;
        assert(img.data.len() <= usize::MAX);
    }
    let (palette, indexed) = convert_to_indexed(&pixels, width, PNG_QUANTIZE_COLORS);
    Ok(IndexedImage { palette, pixels: indexed, width, height })
}

/// What `encoder` is to be asked for `img`. Fails where the picture does
/// not fit the integers of the encoder's codec: with `WebpEncode` for the
/// WebP encoder, with `ConvertInt` for the PNG encoder.
pub fn request_for(encoder: Encoder, img: &Raster) -> (r: Result<EncodeRequest, Error>)
    requires
        img.wf(),
    ensures
        match r {
            Ok(request) => can_request(encoder, img@) && request_matches(encoder, img@, request),
            Err(e) => !can_request(encoder, img@) && match encoder {
                Encoder::Jpeg => false,
                Encoder::Webp => e matches Error::WebpEncode { source: webp::Error::ConvertSigned },
                Encoder::Png => e matches Error::ConvertInt,
            },
        },
{
    match encoder {
        Encoder::Jpeg => Ok(EncodeRequest::Jpeg(encode_jpeg(img))),
        Encoder::Webp => match encode_webp(img) {
            Ok(req) => Ok(EncodeRequest::Webp(req)),
            Err(e) => Err(e),
        },
        Encoder::Png => match encode_png(img) {
            Ok(indexed) => Ok(EncodeRequest::Png(indexed)),
            Err(e) => Err(e),
        },
    }
}

/// Copies a buffer.
fn copy_bytes(bytes: &Vec<u8>) -> (copy: Vec<u8>)
    ensures
        copy@ == bytes@,
{
    bytes.clone()
}

/// Judges a codec's answer for `encoder`: the encoded rendition with the
/// encoder's MIME type and file extension, or the encoder's failure.
pub fn encoded_img(encoder: Encoder, output: &CodecOutput) -> (r: Result<EncodedImg, Error>)
    ensures
        match r {
            Ok(img) => encoded_of(encoder, *output) == Ok::<Seq<u8>, Error>(img.bytes@)
                && img.mime_type@ == encoder.mime_of() && img.file_ext@ == encoder.ext_of(),
            Err(e) => encoded_of(encoder, *output) == Err::<Seq<u8>, Error>(e),
        },
{
    let bytes = match encoder {
        Encoder::Webp => match webp::finish(output.code, &output.bytes) {
            Ok(bytes) => bytes,
            Err(source) => {
                return Err(Error::WebpEncode { source });
            },
        },
        Encoder::Jpeg => match &output.bytes {
            Some(bytes) => copy_bytes(bytes),
            None => {
                return Err(Error::JpegEncode);
            },
        },
        Encoder::Png => match &output.bytes {
            Some(bytes) => copy_bytes(bytes),
            None => {
                return Err(Error::PngEncode { code: output.code });
            },
        },
    };
    Ok(EncodedImg { bytes, mime_type: encoder.mime_type(), file_ext: encoder.file_ext() })
}

} // verus!
