//! Resampling: the size a picture is scaled to, the size constraint on the
//! working image, and which thumbnails a source gets.

use crate::raster::Raster;
use image::GenericImageView;
use vstd::prelude::*;

verus! {

/// The largest width or height a lossy working image may have.
pub const MAX_DIMENSION: u32 = 3000;

/// The square the larger thumbnail fits into.
pub const LARGE_THUMBNAIL: u32 = 2000;

/// Only a source wider than this gets the larger thumbnail.
pub const LARGE_THUMBNAIL_ABOVE: u32 = 2500;

/// The square the smaller thumbnail fits into.
pub const SMALL_THUMBNAIL: u32 = 1000;

/// Only a source wider than this gets the smaller thumbnail.
pub const SMALL_THUMBNAIL_ABOVE: u32 = 1500;

/// The resampling kernels the pipeline uses.
#[derive(Clone, Copy, Debug, PartialEq, Eq, Structural)]
pub enum FilterType {
    Gaussian,
    Lanczos3,
}

/// The dimensions of a `width` by `height` picture scaled, keeping its
/// aspect ratio, to the largest size that fits into `nwidth` by `nheight`.
/// The scaled side is rounded down, but never to zero.
pub open spec fn resize_dimensions(width: int, height: int, nwidth: int, nheight: int) -> (
    int,
    int,
) {
    let use_width = nwidth * height <= width * nheight;
    let scaled = if use_width {
        height * nwidth / width
    } else {
        width * nheight / height
    };
    let intermediate = if scaled < 1 {
        1
    } else {
        scaled
    };
    if use_width {
        if intermediate <= u32::MAX {
            (nwidth, intermediate)
        } else {
            (nwidth * u32::MAX / intermediate, u32::MAX as int)
        }
    } else if intermediate <= u32::MAX {
        (intermediate, nheight)
    } else {
        (u32::MAX as int, nheight * u32::MAX / intermediate)
    }
}

/// Whether the working image has to be scaled down before anything is
/// encoded: only for a lossy source, when either side exceeds
/// [`MAX_DIMENSION`].
pub open spec fn needs_downscale(lossless: bool, width: int, height: int) -> bool {
    !lossless && (width > MAX_DIMENSION || height > MAX_DIMENSION)
}

/// The dimensions of the working image for an upright picture of `width`
/// by `height` pixels.
pub open spec fn working_dimensions(lossless: bool, width: int, height: int) -> (int, int) {
    if needs_downscale(lossless, width, height) {
        resize_dimensions(width, height, MAX_DIMENSION as int, MAX_DIMENSION as int)
    } else {
        (width, height)
    }
}

/// The bounds of the thumbnails made besides the main rendition, largest
/// first: 2000 for a lossy source wider than 2500 pixels, 1000 for a lossy
/// source wider than 1500 pixels, none for a lossless source.
pub open spec fn thumbnail_bounds(lossless: bool, width: int) -> Seq<u32> {
    let large = if !lossless && width > LARGE_THUMBNAIL_ABOVE {
        seq![LARGE_THUMBNAIL]
    } else {
        seq![]
    };
    let small = if !lossless && width > SMALL_THUMBNAIL_ABOVE {
        seq![SMALL_THUMBNAIL]
    } else {
        seq![]
    };
    large + small
}

/// The sizes of all renditions of an upright source of `width` by `height`
/// pixels: the working image first, then one thumbnail for each bound, each
/// fitted into the square of its bound.
pub open spec fn rendition_sizes_of(lossless: bool, width: int, height: int) -> Seq<(int, int)> {
    let working = working_dimensions(lossless, width, height);
    let bounds = thumbnail_bounds(lossless, width);
    seq![working] + Seq::new(
        bounds.len(),
        |b: int| resize_dimensions(working.0, working.1, bounds[b] as int, bounds[b] as int),
    )
}

/// `image::DynamicImage::resize` on a picture of this crate. The result has
/// the argument's layout and the dimensions that [`resize_dimensions`]
/// gives; nothing is claimed of its samples, which come out of floating-point
/// kernels.
///
/// The outside function allocates `width * h` and `w * h` pixels for a
/// result of `w` by `h`; both stay below the larger of the argument's size
/// and `nwidth * nheight`, which is what the last precondition is for.
#[verifier::external_body]
fn resize(img: &Raster, nwidth: u32, nheight: u32, filter: FilterType) -> (out: Raster)
    requires
        img.wf(),
        0 < nwidth,
        0 < nheight,
        nwidth * nheight * 4 <= usize::MAX,
    ensures
        out.wf(),
        out.alpha == img.alpha,
        (out.width as int, out.height as int) == resize_dimensions(
            img.width as int,
            img.height as int,
            nwidth as int,
            nheight as int,
        ),
{
    let filter = match filter {
        FilterType::Gaussian => image::imageops::FilterType::Gaussian,
        FilterType::Lanczos3 => image::imageops::FilterType::Lanczos3,
    };
    let (w, h, data) = (img.width, img.height, img.data.clone());
    let out = match img.alpha {
        true => image::DynamicImage::ImageRgba8(image::RgbaImage::from_raw(w, h, data).unwrap()),
        false => image::DynamicImage::ImageRgb8(image::RgbImage::from_raw(w, h, data).unwrap()),
    }.resize(nwidth, nheight, filter);
    Raster { width: out.width(), height: out.height(), alpha: img.alpha, data: out.into_bytes() }
}

/// `image::DynamicImage::resize_exact` on a picture of this crate. The
/// result has the argument's layout and exactly the width and height asked
/// for, whatever the argument's aspect ratio; nothing is claimed of its
/// samples, which come out of floating-point kernels.
///
/// The outside function allocates `width * nheight` and `nwidth * nheight`
/// pixels, which is what the last two preconditions are for.
#[verifier::external_body]
pub(crate) fn resize_exact(img: &Raster, nwidth: u32, nheight: u32, filter: FilterType) -> (out:
    Raster)
    requires
        img.wf(),
        0 < nwidth,
        0 < nheight,
        img.width * nheight * 4 <= usize::MAX,
        nwidth * nheight * 4 <= usize::MAX,
    ensures
        out.wf(),
        out.alpha == img.alpha,
        out.width == nwidth,
        out.height == nheight,
{
    let filter = match filter {
        FilterType::Gaussian => image::imageops::FilterType::Gaussian,
        FilterType::Lanczos3 => image::imageops::FilterType::Lanczos3,
    };
    let (w, h, data) = (img.width, img.height, img.data.clone());
    let out = match img.alpha {
        true => image::DynamicImage::ImageRgba8(image::RgbaImage::from_raw(w, h, data).unwrap()),
        false => image::DynamicImage::ImageRgb8(image::RgbImage::from_raw(w, h, data).unwrap()),
    }.resize_exact(nwidth, nheight, filter);
    Raster { width: out.width(), height: out.height(), alpha: img.alpha, data: out.into_bytes() }
}

/// Computes the size a picture of `width` by `height` pixels is scaled to
/// when it is fitted into `nwidth` by `nheight`.
pub fn scaled_size(width: u32, height: u32, nwidth: u32, nheight: u32) -> (size: (u32, u32))
    requires
        0 < width,
        0 < height,
        0 < nwidth,
        0 < nheight,
    ensures
        (size.0 as int, size.1 as int) == resize_dimensions(
            width as int,
            height as int,
            nwidth as int,
            nheight as int,
        ),
{
    proof {
        lemma_resize_dimensions(width as int, height as int, nwidth as int, nheight as int);
        assert(nwidth * height <= 0xffff_ffff * 0xffff_ffff && width * nheight <= 0xffff_ffff
            * 0xffff_ffff) by (nonlinear_arith)
            requires
                0 <= width <= 0xffff_ffff,
                0 <= height <= 0xffff_ffff,
                0 <= nwidth <= 0xffff_ffff,
                0 <= nheight <= 0xffff_ffff,
        ;
    }
    let by_width = nwidth as u64 * height as u64;
    let by_height = width as u64 * nheight as u64;
    if by_width <= by_height {
        let scaled = by_width / width as u64;
        (nwidth, if scaled < 1 {
            1
        } else {
            scaled as u32
        })
    } else {
        let scaled = by_height / height as u64;
        (if scaled < 1 {
            1
        } else {
            scaled as u32
        }, nheight)
    }
}

/// Computes the sizes of all renditions of an upright source: the working
/// image first, then the thumbnails, largest first.
pub fn rendition_sizes(lossless: bool, width: u32, height: u32) -> (sizes: Vec<(u32, u32)>)
    requires
        0 < width,
        0 < height,
    ensures
        sizes@.len() == rendition_sizes_of(lossless, width as int, height as int).len(),
        forall|i: int|
            0 <= i < sizes@.len() ==> (sizes@[i].0 as int, sizes@[i].1 as int)
                == #[trigger] rendition_sizes_of(lossless, width as int, height as int)[i],
{
    let working = if !lossless && (width > MAX_DIMENSION || height > MAX_DIMENSION) {
        scaled_size(width, height, MAX_DIMENSION, MAX_DIMENSION)
    } else {
        (width, height)
    };
    proof {
        lemma_working_dimensions(lossless, width as int, height as int);
    }
    let bounds = thumbnails_for(lossless, width);
    let mut sizes: Vec<(u32, u32)> = Vec::new();
    sizes.push(working);
    let mut b: usize = 0;
    while b < bounds.len()
        invariant
            b <= bounds@.len(),
            0 < working.0,
            0 < working.1,
            (working.0 as int, working.1 as int) == working_dimensions(
                lossless,
                width as int,
                height as int,
            ),
            bounds@ == thumbnail_bounds(lossless, width as int),
            sizes@.len() == 1 + b,
            forall|i: int|
                0 <= i < sizes@.len() ==> (sizes@[i].0 as int, sizes@[i].1 as int)
                    == #[trigger] rendition_sizes_of(lossless, width as int, height as int)[i],
        decreases bounds@.len() - b,
    {
        let bound = bounds[b];
        sizes.push(scaled_size(working.0, working.1, bound, bound));
        b = b + 1;
    }
    sizes
}

/// Scales `img` to the largest size that fits into a square of `bound`
/// pixels, keeping its aspect ratio. A picture smaller than the square is
/// scaled up. The square itself has to fit into memory.
pub fn fit_within(img: &Raster, bound: u32, filter: FilterType) -> (out: Raster)
    requires
        img.wf(),
        0 < bound,
        bound * bound * 4 <= usize::MAX,
    ensures
        out.wf(),
        out.alpha == img.alpha,
        (out.width as int, out.height as int) == resize_dimensions(
            img.width as int,
            img.height as int,
            bound as int,
            bound as int,
        ),
{
    resize(img, bound, bound, filter)
}

/// Applies the size constraint: a lossy picture with a side above
/// [`MAX_DIMENSION`] is scaled down to fit a square of that size; any other
/// picture is handed back as it is.
pub fn constrain_size(img: Raster, lossless: bool) -> (out: Raster)
    requires
        img.wf(),
    ensures
        out.wf(),
        out.alpha == img.alpha,
        (out.width as int, out.height as int) == working_dimensions(
            lossless,
            img.width as int,
            img.height as int,
        ),
        !needs_downscale(lossless, img.width as int, img.height as int) ==> out == img,
{
    if !lossless && (img.width > MAX_DIMENSION || img.height > MAX_DIMENSION) {
        fit_within(&img, MAX_DIMENSION, FilterType::Lanczos3)
    } else {
        img
    }
}

/// Lists the thumbnail bounds for a source, largest first.
pub fn thumbnails_for(lossless: bool, width: u32) -> (bounds: Vec<u32>)
    ensures
        bounds@ == thumbnail_bounds(lossless, width as int),
{
    let mut bounds: Vec<u32> = Vec::new();
    if !lossless && width > LARGE_THUMBNAIL_ABOVE {
        bounds.push(LARGE_THUMBNAIL);
    }
    if !lossless && width > SMALL_THUMBNAIL_ABOVE {
        bounds.push(SMALL_THUMBNAIL);
    }
    bounds
}

/// Fitting into a box: the side that the box constrains takes the length of
/// the box, the other side the proportional length, rounded down but to at
/// least one pixel; the result lies within the box.
pub proof fn lemma_resize_dimensions(width: int, height: int, nwidth: int, nheight: int)
    requires
        0 < width,
        0 < height,
        0 < nwidth <= u32::MAX,
        0 < nheight <= u32::MAX,
    ensures
        resize_dimensions(width, height, nwidth, nheight) == (if nwidth * height <= width
            * nheight {
            (nwidth, if height * nwidth / width < 1 {
                1
            } else {
                height * nwidth / width
            })
        } else {
            (if width * nheight / height < 1 {
                1
            } else {
                width * nheight / height
            }, nheight)
        }),
        0 < resize_dimensions(width, height, nwidth, nheight).0 <= nwidth,
        0 < resize_dimensions(width, height, nwidth, nheight).1 <= nheight,
{
    if nwidth * height <= width * nheight {
        assert(height * nwidth / width <= nheight) by (nonlinear_arith)
            requires
                nwidth * height <= width * nheight,
                0 < width,
                0 <= height * nwidth,
        ;
    } else {
        assert(width * nheight / height <= nwidth) by (nonlinear_arith)
            requires
                width * nheight < nwidth * height,
                0 < height,
                0 <= width * nheight,
        ;
    }
}

/// Scaling into a square of `bound` pixels makes the longer side exactly
/// `bound` and the shorter side the proportional length, rounded down but at
/// least one pixel.
pub proof fn lemma_fit_within(width: int, height: int, bound: int)
    requires
        0 < width,
        0 < height,
        0 < bound <= u32::MAX,
    ensures
        resize_dimensions(width, height, bound, bound) == (if height <= width {
            (bound, if height * bound / width < 1 {
                1
            } else {
                height * bound / width
            })
        } else {
            (if width * bound / height < 1 {
                1
            } else {
                width * bound / height
            }, bound)
        }),
        0 < resize_dimensions(width, height, bound, bound).0 <= bound,
        0 < resize_dimensions(width, height, bound, bound).1 <= bound,
{
    assert(bound * height <= width * bound <==> height <= width) by (nonlinear_arith)
        requires
            0 < bound,
    ;
    if height <= width {
        assert(height * bound / width <= bound) by (nonlinear_arith)
            requires
                0 < height <= width,
                0 < bound,
        ;
    } else {
        assert(width * bound / height <= bound) by (nonlinear_arith)
            requires
                0 < width < height,
                0 < bound,
        ;
    }
}

/// The size constraint: the working image of a lossy source never exceeds
/// [`MAX_DIMENSION`] on either side; where the source did, its longer side
/// is exactly [`MAX_DIMENSION`]; a lossless source, and any source within
/// the limit, keeps its dimensions.
pub proof fn lemma_working_dimensions(lossless: bool, width: int, height: int)
    requires
        0 < width,
        0 < height,
    ensures
        ({
            let (w, h) = working_dimensions(lossless, width, height);
            &&& 0 < w <= width
            &&& 0 < h <= height
            &&& !lossless ==> w <= MAX_DIMENSION && h <= MAX_DIMENSION
            &&& needs_downscale(lossless, width, height) ==> (w == MAX_DIMENSION || h
                == MAX_DIMENSION)
            &&& needs_downscale(lossless, width, height) && height <= width ==> w == MAX_DIMENSION
            &&& needs_downscale(lossless, width, height) && width < height ==> h == MAX_DIMENSION
            &&& !needs_downscale(lossless, width, height) ==> w == width && h == height
        }),
{
    if needs_downscale(lossless, width, height) {
        lemma_fit_within(width, height, MAX_DIMENSION as int);
        if height <= width {
            assert(height * 3000 / width <= height) by (nonlinear_arith)
                requires
                    0 < height,
                    3000 < width,
            ;
        } else {
            assert(width * 3000 / height <= width) by (nonlinear_arith)
                requires
                    0 < width,
                    3000 < height,
            ;
        }
    }
}

/// How many renditions each encoder makes of a lossy source: the main one
/// alone up to 1500 pixels of width, one thumbnail of 1000 above that, and
/// thumbnails of 2000 and 1000 above 2500.
pub proof fn lemma_lossy_thumbnails(width: int)
    ensures
        width <= 1500 ==> thumbnail_bounds(false, width) =~= seq![],
        1500 < width <= 2500 ==> thumbnail_bounds(false, width) =~= seq![1000u32],
        2500 < width ==> thumbnail_bounds(false, width) =~= seq![2000u32, 1000u32],
{
}

/// A lossless source gets no thumbnail, whatever its width.
pub proof fn lemma_lossless_thumbnails(width: int)
    ensures
        thumbnail_bounds(true, width) =~= seq![],
{
}

} // verus!
