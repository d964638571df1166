//! The orientation normalizer: turns decoded pixels upright.

use crate::metadata::Orientation;
use image::GenericImageView;
use crate::raster::{lemma_remap, Raster, RasterView};
use vstd::prelude::*;

verus! {

impl RasterView {
    /// Mirrored left to right.
    pub open spec fn flip_horizontal(self) -> RasterView {
        self.remap(self.width, self.height, |x: int, y: int| (self.width - 1 - x, y))
    }

    /// Mirrored top to bottom.
    pub open spec fn flip_vertical(self) -> RasterView {
        self.remap(self.width, self.height, |x: int, y: int| (x, self.height - 1 - y))
    }

    /// Turned a quarter clockwise: the left column becomes the top row.
    pub open spec fn rotate90(self) -> RasterView {
        self.remap(self.height, self.width, |x: int, y: int| (y, self.height - 1 - x))
    }

    /// Turned upside down.
    pub open spec fn rotate180(self) -> RasterView {
        self.remap(
            self.width,
            self.height,
            |x: int, y: int| (self.width - 1 - x, self.height - 1 - y),
        )
    }

    /// Turned three quarters clockwise: the right column becomes the top row.
    pub open spec fn rotate270(self) -> RasterView {
        self.remap(self.height, self.width, |x: int, y: int| (self.width - 1 - y, x))
    }

    /// The upright picture for pixels stored with orientation `ori`. An
    /// orientation without a transform of its own leaves the picture as it is.
    pub open spec fn oriented(self, ori: Orientation) -> RasterView {
        match ori {
            Orientation::HorizontalFlip => self.flip_horizontal(),
            Orientation::Rotate180 => self.rotate180(),
            Orientation::VerticalFlip => self.flip_vertical(),
            Orientation::Rotate90HorizontalFlip => self.rotate90().flip_horizontal(),
            Orientation::Rotate90 => self.rotate90(),
            Orientation::Rotate90VerticalFlip => self.rotate90().flip_vertical(),
            Orientation::Rotate270 => self.rotate270(),
            _ => self,
        }
    }

    /// Where pixel `(x, y)` of the upright picture lies in the stored one.
    pub open spec fn upright_source(self, ori: Orientation, x: int, y: int) -> (int, int) {
        match ori {
            Orientation::HorizontalFlip => (self.width - 1 - x, y),
            Orientation::Rotate180 => (self.width - 1 - x, self.height - 1 - y),
            Orientation::VerticalFlip => (x, self.height - 1 - y),
            Orientation::Rotate90HorizontalFlip => (y, x),
            Orientation::Rotate90 => (y, self.height - 1 - x),
            Orientation::Rotate90VerticalFlip => (self.width - 1 - y, self.height - 1 - x),
            Orientation::Rotate270 => (self.width - 1 - y, x),
            _ => (x, y),
        }
    }
}

/// `image::DynamicImage::fliph` on a picture of this crate: the result has
/// the same dimensions and layout, and its pixel `(x, y)` is the argument's
/// pixel `(width - 1 - x, y)`.
#[verifier::external_body]
fn fliph(img: &Raster) -> (out: Raster)
    requires
        img.wf(),
    ensures
        out@ == img@.flip_horizontal(),
{
    let out = match img.alpha {
        true => image::DynamicImage::ImageRgba8(
            image::RgbaImage::from_raw(img.width, img.height, img.data.clone()).unwrap(),
        ),
        false => image::DynamicImage::ImageRgb8(
            image::RgbImage::from_raw(img.width, img.height, img.data.clone()).unwrap(),
        ),
    }.fliph();
    Raster { width: out.width(), height: out.height(), alpha: img.alpha, data: out.into_bytes() }
}

/// `image::DynamicImage::flipv` on a picture of this crate: the result has
/// the same dimensions and layout, and its pixel `(x, y)` is the argument's
/// pixel `(x, height - 1 - y)`.
#[verifier::external_body]
fn flipv(img: &Raster) -> (out: Raster)
    requires
        img.wf(),
    ensures
        out@ == img@.flip_vertical(),
{
    let out = match img.alpha {
        true => image::DynamicImage::ImageRgba8(
            image::RgbaImage::from_raw(img.width, img.height, img.data.clone()).unwrap(),
        ),
        false => image::DynamicImage::ImageRgb8(
            image::RgbImage::from_raw(img.width, img.height, img.data.clone()).unwrap(),
        ),
    }.flipv();
    Raster { width: out.width(), height: out.height(), alpha: img.alpha, data: out.into_bytes() }
}

/// `image::DynamicImage::rotate90` on a picture of this crate: the result is
/// `height` pixels wide and `width` pixels high, and its pixel `(x, y)` is
/// the argument's pixel `(y, height - 1 - x)`.
#[verifier::external_body]
fn rotate90(img: &Raster) -> (out: Raster)
    requires
        img.wf(),
    ensures
        out@ == img@.rotate90(),
{
    let out = match img.alpha {
        true => image::DynamicImage::ImageRgba8(
            image::RgbaImage::from_raw(img.width, img.height, img.data.clone()).unwrap(),
        ),
        false => image::DynamicImage::ImageRgb8(
            image::RgbImage::from_raw(img.width, img.height, img.data.clone()).unwrap(),
        ),
    }.rotate90();
    Raster { width: out.width(), height: out.height(), alpha: img.alpha, data: out.into_bytes() }
}

/// `image::DynamicImage::rotate180` on a picture of this crate: the result
/// has the same dimensions and layout, and its pixel `(x, y)` is the
/// argument's pixel `(width - 1 - x, height - 1 - y)`.
#[verifier::external_body]
fn rotate180(img: &Raster) -> (out: Raster)
    requires
        img.wf(),
    ensures
        out@ == img@.rotate180(),
{
    let out = match img.alpha {
        true => image::DynamicImage::ImageRgba8(
            image::RgbaImage::from_raw(img.width, img.height, img.data.clone()).unwrap(),
        ),
        false => image::DynamicImage::ImageRgb8(
            image::RgbImage::from_raw(img.width, img.height, img.data.clone()).unwrap(),
        ),
    }.rotate180();
    Raster { width: out.width(), height: out.height(), alpha: img.alpha, data: out.into_bytes() }
}

/// `image::DynamicImage::rotate270` on a picture of this crate: the result is
/// `height` pixels wide and `width` pixels high, and its pixel `(x, y)` is
/// the argument's pixel `(width - 1 - y, x)`.
#[verifier::external_body]
fn rotate270(img: &Raster) -> (out: Raster)
    requires
        img.wf(),
    ensures
        out@ == img@.rotate270(),
{
    let out = match img.alpha {
        true => image::DynamicImage::ImageRgba8(
            image::RgbaImage::from_raw(img.width, img.height, img.data.clone()).unwrap(),
        ),
        false => image::DynamicImage::ImageRgb8(
            image::RgbImage::from_raw(img.width, img.height, img.data.clone()).unwrap(),
        ),
    }.rotate270();
    Raster { width: out.width(), height: out.height(), alpha: img.alpha, data: out.into_bytes() }
}

/// Turns `img` upright according to `ori`.
///
/// Orientations that name no transform (`Unspecified`, `Normal`) hand the
/// picture back unchanged.
pub fn orient_image(img: Raster, ori: Orientation) -> (out: Raster)
    requires
        img.wf(),
    ensures
        out@ == img@.oriented(ori),
        out.wf(),
        out.alpha == img.alpha,
        out.width == (if ori.swaps_axes() {
            img.height
        } else {
            img.width
        }),
        out.height == (if ori.swaps_axes() {
            img.width
        } else {
            img.height
        }),
{
    proof {
        lemma_oriented_wf(img@, ori);
    }
    match ori {
        Orientation::HorizontalFlip => fliph(&img),
        Orientation::Rotate180 => rotate180(&img),
        Orientation::VerticalFlip => flipv(&img),
        Orientation::Rotate90HorizontalFlip => {
            let turned = rotate90(&img);
            proof {
                lemma_oriented_wf(img@, Orientation::Rotate90);
            }
            fliph(&turned)
        },
        Orientation::Rotate90 => rotate90(&img),
        Orientation::Rotate90VerticalFlip => {
            let turned = rotate90(&img);
            proof {
                lemma_oriented_wf(img@, Orientation::Rotate90);
            }
            flipv(&turned)
        },
        Orientation::Rotate270 => rotate270(&img),
        _ => img,
    }
}

/// Normalizing keeps a picture well formed and its layout, and exchanges
/// width and height exactly for the four orientations that turn by a quarter.
pub proof fn lemma_oriented_wf(v: RasterView, ori: Orientation)
    requires
        v.wf(),
    ensures
        v.oriented(ori).wf(),
        v.oriented(ori).alpha == v.alpha,
        v.oriented(ori).width == (if ori.swaps_axes() {
            v.height
        } else {
            v.width
        }),
        v.oriented(ori).height == (if ori.swaps_axes() {
            v.width
        } else {
            v.height
        }),
{
}

/// Every sample of the upright picture is the stored sample at
/// [`RasterView::upright_source`].
pub proof fn lemma_oriented_sample(v: RasterView, ori: Orientation, x: int, y: int, c: int)
    requires
        v.wf(),
        0 <= x < v.oriented(ori).width,
        0 <= y < v.oriented(ori).height,
        0 <= c < v.channels(),
    ensures
        v.oriented(ori).sample(x, y, c) == v.sample(
            v.upright_source(ori, x, y).0,
            v.upright_source(ori, x, y).1,
            c,
        ),
{
    lemma_oriented_wf(v, ori);
    let w = v.width;
    let h = v.height;
    match ori {
        Orientation::HorizontalFlip => {
            lemma_remap(v, w, h, |x: int, y: int| (v.width - 1 - x, y), x, y, c);
        },
        Orientation::Rotate180 => {
            lemma_remap(v, w, h, |x: int, y: int| (v.width - 1 - x, v.height - 1 - y), x, y, c);
        },
        Orientation::VerticalFlip => {
            lemma_remap(v, w, h, |x: int, y: int| (x, v.height - 1 - y), x, y, c);
        },
        Orientation::Rotate90 => {
            lemma_remap(v, h, w, |x: int, y: int| (y, v.height - 1 - x), x, y, c);
        },
        Orientation::Rotate270 => {
            lemma_remap(v, h, w, |x: int, y: int| (v.width - 1 - y, x), x, y, c);
        },
        Orientation::Rotate90HorizontalFlip => {
            let r = v.rotate90();
            lemma_oriented_wf(v, Orientation::Rotate90);
            lemma_remap(r, h, w, |x: int, y: int| (r.width - 1 - x, y), x, y, c);
            lemma_remap(v, h, w, |x: int, y: int| (y, v.height - 1 - x), h - 1 - x, y, c);
        },
        Orientation::Rotate90VerticalFlip => {
            let r = v.rotate90();
            lemma_oriented_wf(v, Orientation::Rotate90);
            lemma_remap(r, h, w, |x: int, y: int| (x, r.height - 1 - y), x, y, c);
            lemma_remap(v, h, w, |x: int, y: int| (y, v.height - 1 - x), x, w - 1 - y, c);
        },
        _ => {},
    }
}

} // verus!
