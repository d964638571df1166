//! Pixel buffers of eight-bit RGB or RGBA samples, and the mathematical
//! picture they stand for.

use vstd::arithmetic::div_mod::lemma_fundamental_div_mod_converse;
use vstd::prelude::*;

verus! {

/// An image in memory: rows from top to bottom, pixels from left to right,
/// three samples per pixel (red, green, blue) or four (with alpha last).
#[derive(Clone, Debug, PartialEq, Eq)]
pub struct Raster {
    pub width: u32,
    pub height: u32,
    pub alpha: bool,
    pub data: Vec<u8>,
}

/// What a [`Raster`] means: its dimensions, its layout and its samples.
pub ghost struct RasterView {
    pub width: int,
    pub height: int,
    pub alpha: bool,
    pub data: Seq<u8>,
}

impl RasterView {
    /// Samples per pixel.
    pub open spec fn channels(self) -> int {
        if self.alpha {
            4
        } else {
            3
        }
    }

    /// Neither dimension is zero and the buffer holds exactly the samples
    /// of `width * height` pixels.
    pub open spec fn wf(self) -> bool {
        &&& 0 < self.width <= u32::MAX
        &&& 0 < self.height <= u32::MAX
        &&& self.data.len() == self.width * self.height * self.channels()
    }

    /// Sample `c` of the pixel in column `x` of row `y`.
    pub open spec fn sample(self, x: int, y: int, c: int) -> u8 {
        self.data[(y * self.width + x) * self.channels() + c]
    }

    /// The picture of `width` by `height` pixels whose pixel `(x, y)` is this
    /// picture's pixel at `from(x, y)`.
    pub open spec fn remap(
        self,
        width: int,
        height: int,
        from: spec_fn(int, int) -> (int, int),
    ) -> RasterView {
        RasterView {
            width,
            height,
            alpha: self.alpha,
            data: Seq::new(
                (width * height * self.channels()) as nat,
                |i: int|
                    {
                        let p = i / self.channels();
                        let (sx, sy) = from(p % width, p / width);
                        self.sample(sx, sy, i % self.channels())
                    },
            ),
        }
    }
}

impl View for Raster {
    type V = RasterView;

    open spec fn view(&self) -> RasterView {
        RasterView {
            width: self.width as int,
            height: self.height as int,
            alpha: self.alpha,
            data: self.data@,
        }
    }
}

impl Raster {
    /// The invariant every function of this crate expects of an image.
    pub open spec fn wf(&self) -> bool {
        self@.wf()
    }

    /// Wraps a buffer of samples, if it fits the dimensions: neither
    /// dimension may be zero, and `data` must hold three bytes per pixel, or
    /// four with `alpha`.
    pub fn new(width: u32, height: u32, alpha: bool, data: Vec<u8>) -> (r: Option<Raster>)
        ensures
            match r {
                Some(img) => img.wf() && img.width == width && img.height == height && img.alpha
                    == alpha && img.data == data,
                None => !(RasterView {
                    width: width as int,
                    height: height as int,
                    alpha,
                    data: data@,
                }).wf(),
            },
    {
        if width == 0 || height == 0 {
            return None;
        }
        let channels: u128 = if alpha {
            4
        } else {
            3
        };
        assert(width as int * height as int <= 0xffff_ffff * 0xffff_ffff) by (nonlinear_arith)
            requires
                0 <= width as int <= 0xffff_ffff,
                0 <= height as int <= 0xffff_ffff,
        ;
        let pixels: u128 = (width as u128) * (height as u128);
        let samples: u128 = pixels * channels;
        if data.len() as u128 == samples {
            Some(Raster { width, height, alpha, data })
        } else {
            None
        }
    }

    /// Samples per pixel: 4 with alpha, 3 without.
    pub fn channels(&self) -> (n: usize)
        ensures
            n == self@.channels(),
    {
        if self.alpha {
            4
        } else {
            3
        }
    }

    /// The red, green, blue and alpha samples of the pixel in column `x` of
    /// row `y`; an image without alpha is opaque everywhere.
    pub fn pixel(&self, x: u32, y: u32) -> (p: (u8, u8, u8, u8))
        requires
            self.wf(),
            x < self.width,
            y < self.height,
        ensures
            p.0 == self@.sample(x as int, y as int, 0),
            p.1 == self@.sample(x as int, y as int, 1),
            p.2 == self@.sample(x as int, y as int, 2),
            p.3 == if self.alpha {
                self@.sample(x as int, y as int, 3)
            } else {
                255u8
            },
    {
        proof {
            lemma_sample_in_bounds(self@, x as int, y as int, 0);
            lemma_sample_in_bounds(self@, x as int, y as int, self@.channels() - 1);
        }
        let channels = self.channels();
        assert(self.data.len() <= usize::MAX);
        let at: usize = (y as usize * self.width as usize + x as usize) * channels;
        let a = if self.alpha {
            self.data[at + 3]
        } else {
            255
        };
        (self.data[at], self.data[at + 1], self.data[at + 2], a)
    }
}

/// Every sample of a well-formed picture lies inside its buffer.
pub proof fn lemma_sample_in_bounds(v: RasterView, x: int, y: int, c: int)
    requires
        v.wf(),
        0 <= x < v.width,
        0 <= y < v.height,
        0 <= c < v.channels(),
    ensures
        0 <= y * v.width + x < v.width * v.height,
        0 <= (y * v.width + x) * v.channels() + c < v.data.len(),
{
    let w = v.width;
    let h = v.height;
    assert(y * w + w <= h * w) by (nonlinear_arith)
        requires
            y + 1 <= h,
            0 < w,
    ;
}

/// A remapped picture has the dimensions asked for, and its pixel `(x, y)`
/// is the source's pixel at `from(x, y)`, sample by sample.
pub proof fn lemma_remap(
    v: RasterView,
    width: int,
    height: int,
    from: spec_fn(int, int) -> (int, int),
    x: int,
    y: int,
    c: int,
)
    requires
        0 < width,
        0 < height,
        0 <= x < width,
        0 <= y < height,
        0 <= c < v.channels(),
    ensures
        v.remap(width, height, from).data.len() == width * height * v.channels(),
        v.remap(width, height, from).sample(x, y, c) == v.sample(from(x, y).0, from(x, y).1, c),
{
    let n = v.channels();
    let p = y * width + x;
    let i = p * n + c;
    assert(0 <= y * width && y * width + width <= height * width) by (nonlinear_arith)
        requires
            0 <= y,
            y + 1 <= height,
            0 < width,
    ;
    lemma_fundamental_div_mod_converse(i, n, p, c);
    lemma_fundamental_div_mod_converse(p, width, y, x);
}

} // verus!
