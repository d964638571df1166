//! The dominant colors of a picture.

use crate::error::{Error, PaletteFailure};
use crate::raster::Raster;
use vstd::prelude::*;

verus! {

/// An opaque color of three 8-bit samples.
#[derive(Clone, Copy, Debug, PartialEq, Eq, Structural)]
pub struct Rgb {
    pub r: u8,
    pub g: u8,
    pub b: u8,
}

/// The sampling step the palette is extracted with: the coarsest the
/// extractor offers.
pub const PALETTE_QUALITY: u8 = 10;

/// The most colors a palette holds.
pub const PALETTE_COLORS: u8 = 10;

/// The most samples a picture may have for its palette to be extracted at
/// sampling step `quality`. The extractor sums in 32-bit integers, and
/// beyond this size its sums may overflow.
pub open spec fn palette_limit(quality: int) -> int {
    72_000_000 * quality
}

/// The palette that `color_thief::get_palette` extracts, or its failure.
pub uninterp spec fn dominant_colors(
    pixels: Seq<u8>,
    alpha: bool,
    quality: int,
    max_colors: int,
) -> Result<Seq<Rgb>, PaletteFailure>;

/// `color_thief::get_palette` on RGB or RGBA samples. The result is what
/// [`dominant_colors`] names; a palette has at most `max_colors` entries.
///
/// The outside function asserts the bounds on `quality` and `max_colors`.
/// It looks at no more than one pixel in `3 * quality` and adds at most 252
/// per pixel into 32-bit sums, which the bound on the length keeps from
/// overflowing.
#[verifier::external_body]
fn get_palette(pixels: &[u8], alpha: bool, quality: u8, max_colors: u8) -> (r: Result<
    Vec<Rgb>,
    PaletteFailure,
>)
    requires
        0 < quality <= 10,
        1 < max_colors,
        pixels@.len() <= palette_limit(quality as int),
    ensures
        dominant_colors(pixels@, alpha, quality as int, max_colors as int) == (match r {
            Ok(colors) => Ok::<Seq<Rgb>, PaletteFailure>(colors@),
            Err(e) => Err::<Seq<Rgb>, PaletteFailure>(e),
        }),
        r matches Ok(colors) ==> colors@.len() <= max_colors,
{
    let format = match alpha {
        true => color_thief::ColorFormat::Rgba,
        false => color_thief::ColorFormat::Rgb,
    };
    match color_thief::get_palette(pixels, format, quality, max_colors) {
        Ok(colors) => Ok(colors.iter().map(|c| Rgb { r: c.r, g: c.g, b: c.b }).collect()),
        Err(color_thief::Error::InvalidVBox) => Err(PaletteFailure::InvalidVBox),
        Err(color_thief::Error::VBoxCutFailed) => Err(PaletteFailure::VBoxCutFailed),
    }
}

/// What [`extract_palette`] returns for samples `pixels`: the extractor's
/// palette or failure, or `TooLarge` for a picture beyond its limit.
pub open spec fn palette_of(pixels: Seq<u8>, alpha: bool) -> Result<Seq<Rgb>, PaletteFailure> {
    if pixels.len() <= palette_limit(PALETTE_QUALITY as int) {
        dominant_colors(pixels, alpha, PALETTE_QUALITY as int, PALETTE_COLORS as int)
    } else {
        Err(PaletteFailure::TooLarge)
    }
}

/// Extracts the dominant colors of `img`, most dominant first: at most
/// [`PALETTE_COLORS`] of them.
pub fn extract_palette(img: &Raster) -> (r: Result<Vec<Rgb>, Error>)
    ensures
        match r {
            Ok(colors) => palette_of(img.data@, img.alpha) == Ok::<Seq<Rgb>, PaletteFailure>(
                colors@,
            ) && colors@.len() <= PALETTE_COLORS,
            Err(e) => e matches Error::PaletteExtract { source } && palette_of(
                img.data@,
                img.alpha,
            ) == Err::<Seq<Rgb>, PaletteFailure>(source),
        },
{
    if img.data.len() > 720_000_000 {
        return Err(Error::PaletteExtract { source: PaletteFailure::TooLarge });
    }
    match get_palette(img.data.as_slice(), img.alpha, PALETTE_QUALITY, PALETTE_COLORS) {
        Ok(colors) => Ok(colors),
        Err(source) => Err(Error::PaletteExtract { source }),
    }
}

} // verus!
