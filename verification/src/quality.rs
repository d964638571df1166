//! The quality policy: large pictures are compressed harder, since at high
//! resolution the loss shows less.
//!
//! Qualities are counted in thousandths of the codecs' quality unit, so
//! that the policy is exact integer arithmetic: 65 100 stands for 65.1.

use vstd::prelude::*;

verus! {

/// The base quality of the JPEG encoder.
pub const JPEG_QUALITY: i64 = 65_000;

/// The base quality of the lossy WebP encoder.
pub const WEBP_QUALITY: i64 = 53_000;

/// The quality of the tiny preview.
pub const PREVIEW_QUALITY: i64 = 200;

/// Up to this width the bonus is at its full value.
pub const FULL_BONUS_WIDTH: u32 = 4900;

/// At this width the bonus is zero.
pub const ZERO_BONUS_WIDTH: u32 = 5000;

/// What is added to an encoder's base quality for a picture `width` pixels
/// wide: one thousandth for every pixel that the width, taken as at least
/// 4900, stays below 5000. Wider pictures get a penalty that grows without
/// bound.
pub open spec fn quality_bonus_of(width: int) -> int {
    ZERO_BONUS_WIDTH - (if width > FULL_BONUS_WIDTH {
        width
    } else {
        FULL_BONUS_WIDTH as int
    })
}

/// The quality bonus for a picture `width` pixels wide, in thousandths.
pub fn quality_bonus(width: u32) -> (bonus: i64)
    ensures
        bonus == quality_bonus_of(width as int),
{
    let floor: u32 = if width > FULL_BONUS_WIDTH {
        width
    } else {
        FULL_BONUS_WIDTH
    };
    ZERO_BONUS_WIDTH as i64 - floor as i64
}

/// The quality the JPEG encoder uses for a picture `width` pixels wide.
pub fn jpeg_quality(width: u32) -> (quality: i64)
    ensures
        quality == JPEG_QUALITY + quality_bonus_of(width as int),
{
    JPEG_QUALITY + quality_bonus(width)
}

/// The quality the lossy WebP encoder uses for a picture `width` pixels
/// wide.
pub fn webp_quality(width: u32) -> (quality: i64)
    ensures
        quality == WEBP_QUALITY + quality_bonus_of(width as int),
{
    WEBP_QUALITY + quality_bonus(width)
}

/// The shape of the bonus: a flat tenth of a unit up to 4900 pixels, then a
/// thousandth less for each pixel more, zero at 5000 and negative beyond.
pub proof fn lemma_quality_bonus(width: int)
    ensures
        width <= 4900 ==> quality_bonus_of(width) == 100,
        4900 <= width ==> quality_bonus_of(width) == 5000 - width,
        width > 5000 ==> quality_bonus_of(width) < 0,
{
}

} // verus!
