//! Textures: what colour a surface has at a point.

use vstd::prelude::*;
use crate::float3::Float3;
use crate::raster::RgbBuffer;
use crate::scalar::Scalar;

verus! {

/// A texture of one of the three kinds.
#[derive(Debug, PartialEq, Eq)]
pub enum Texture {
    Color(ColorTexture),
    Checker(CheckerTexture),
    Image(ImageTexture),
}

/// One colour everywhere.
#[derive(Debug, PartialEq, Eq)]
pub struct ColorTexture {
    pub color: Float3,
}

impl ColorTexture {
    /// The texture of this colour.
    pub fn new(color: Float3) -> (r: ColorTexture)
        ensures
            r.color == color,
    {
        ColorTexture { color }
    }

    /// The colour at any point.
    pub fn value(&self) -> (r: Float3)
        ensures
            r == self.color,
    {
        self.color
    }
}

/// Two textures in a checker pattern in space.
#[derive(Debug, PartialEq, Eq)]
pub struct CheckerTexture {
    pub odd: Box<Texture>,
    pub even: Box<Texture>,
    pub freq: Scalar,
}

impl CheckerTexture {
    /// The pattern of `odd` and `even` cells, `freq` setting their size.
    pub fn new(odd: Box<Texture>, even: Box<Texture>, freq: Scalar) -> (r: CheckerTexture)
        ensures
            r.odd == odd,
            r.even == even,
            r.freq == freq,
    {
        CheckerTexture { odd, even, freq }
    }

    /// The texture of the cell that a point lies in.  `sines` is the
    /// product, over the point's three coordinates, of the sine of the
    /// coordinate times `freq`: below zero the cell is odd.
    pub fn cell(&self, sines: Scalar) -> (r: &Texture)
        ensures
            *r == if sines.negative() {
                *self.odd
            } else {
                *self.even
            },
    {
        if sines.is_negative() {
            &*self.odd
        } else {
            &*self.even
        }
    }
}

/// Where a sample at `i` is taken along an axis of `n` texels: at `i`
/// itself inside the raster, at the last texel otherwise.
pub open spec fn texel_index(i: int, n: nat) -> int {
    if 0 <= i < n {
        i
    } else {
        n - 1
    }
}

/// The pixels of a decoded image, laid over a surface `scale.0` by
/// `scale.1` times.
#[derive(Debug, PartialEq, Eq)]
pub struct ImageTexture {
    pixels: Vec<(u8, u8, u8)>,
    width: usize,
    height: usize,
    scale: (Scalar, Scalar),
}

impl ImageTexture {
    #[verifier::type_invariant]
    spec fn inv(self) -> bool {
        self.pixels@.len() == self.width * self.height
    }

    /// The number of texels in a row.
    pub closed spec fn spec_width(self) -> nat {
        self.width as nat
    }

    /// The number of rows.
    pub closed spec fn spec_height(self) -> nat {
        self.height as nat
    }

    /// How often the image repeats along each surface coordinate.
    pub closed spec fn spec_scale(self) -> (Scalar, Scalar) {
        self.scale
    }

    /// The texel in column `x` of row `y`.
    pub closed spec fn texel(self, x: int, y: int) -> (u8, u8, u8) {
        self.pixels@[cell(self.width as int, x, y)]
    }

    /// The texture that holds the pixels of `img`.
    pub fn new(img: &RgbBuffer, scale: (Scalar, Scalar)) -> (r: ImageTexture)
        ensures
            r.spec_width() == img.width(),
            r.spec_height() == img.height(),
            r.spec_scale() == scale,
            forall|x: int, y: int|
                0 <= x < img.width() && 0 <= y < img.height() ==> #[trigger] r.texel(x, y)
                    == img.pixel(x as nat, y as nat),
    {
        let (w, h) = img.dimensions();
        let mut pixels: Vec<(u8, u8, u8)> = Vec::new();
        let mut y: u32 = 0;
        while y < h
            invariant
                y <= h,
                w == img.width(),
                h == img.height(),
                pixels@.len() == cell(w as int, 0, y as int),
                forall|i: int, j: int|
                    0 <= i < w && 0 <= j < y ==> pixels@[#[trigger] cell(w as int, i, j)]
                        == img.pixel(i as nat, j as nat),
            decreases h - y,
        {
            let mut x: u32 = 0;
            while x < w
                invariant
                    x <= w,
                    y < h,
                    w == img.width(),
                    h == img.height(),
                    pixels@.len() == cell(w as int, x as int, y as int),
                    forall|i: int, j: int|
                        0 <= i < w && 0 <= j < y ==> pixels@[#[trigger] cell(w as int, i, j)]
                            == img.pixel(i as nat, j as nat),
                    forall|i: int|
                        0 <= i < x ==> pixels@[#[trigger] cell(w as int, i, y as int)]
                            == img.pixel(i as nat, y as nat),
                decreases w - x,
            {
                let p = img.at(x, y);
                proof {
                    assert forall|i: int, j: int| 0 <= i < w && 0 <= j < y implies #[trigger] cell(
                        w as int,
                        i,
                        j,
                    ) < pixels@.len() by {
                        lemma_cell_below(w as int, i, j, y as int);
                    }
                }
                pixels.push(p);
                x = x + 1;
            }
            proof {
                assert(cell(w as int, w as int, y as int) == cell(w as int, 0, y as int + 1))
                    by (nonlinear_arith);
            }
            y = y + 1;
        }
        proof {
            assert(cell(w as int, 0, h as int) == w * h) by (nonlinear_arith);
        }
        ImageTexture { pixels, width: w as usize, height: h as usize, scale }
    }

    /// The number of texels in a row.
    pub fn width(&self) -> (r: usize)
        ensures
            r == self.spec_width(),
    {
        self.width
    }

    /// The number of rows.
    pub fn height(&self) -> (r: usize)
        ensures
            r == self.spec_height(),
    {
        self.height
    }

    /// How often the image repeats along each surface coordinate.
    pub fn scale(&self) -> (r: (Scalar, Scalar))
        ensures
            r == self.spec_scale(),
    {
        self.scale
    }

    /// The texel nearest to column `u` and row `v`.  Inside the raster that
    /// is the texel there; a coordinate outside it, on either side, takes
    /// the last column or row.
    pub fn sample(&self, u: i64, v: i64) -> (r: (u8, u8, u8))
        requires
            self.spec_width() > 0,
            self.spec_height() > 0,
        ensures
            r == self.texel(
                texel_index(u as int, self.spec_width()),
                texel_index(v as int, self.spec_height()),
            ),
    {
        proof {
            use_type_invariant(self);
        }
        let tu: usize = Self::clamped(u, self.width);
        let tv: usize = Self::clamped(v, self.height);
        let len: usize = self.pixels.len();
        proof {
            lemma_cell_below(self.width as int, tu as int, tv as int, self.height as int);
            assert(cell(self.width as int, 0, self.height as int) == self.width * self.height)
                by (nonlinear_arith);
            assert(0 <= self.width * tv <= cell(self.width as int, tu as int, tv as int)) by {
                lemma_cell_below(self.width as int, 0, tv as int, self.height as int);
            }
        }
        self.pixels[tu + self.width * tv]
    }

    fn clamped(i: i64, n: usize) -> (r: usize)
        requires
            n > 0,
        ensures
            r == texel_index(i as int, n as nat),
            r < n,
    {
        if i < 0 {
            n - 1
        } else if i as u64 >= n as u64 {
            n - 1
        } else {
            i as usize
        }
    }
}

/// The place of cell `(x, y)` in a raster `w` wide that is stored row after
/// row.
pub open spec fn cell(w: int, x: int, y: int) -> int {
    x + w * y
}

/// Every cell of a row comes before every cell of a later row, and after
/// the start.
pub proof fn lemma_cell_below(w: int, x: int, y: int, later: int)
    requires
        0 <= x < w,
        0 <= y < later,
    ensures
        0 <= w * y <= cell(w, x, y) < cell(w, 0, later),
{
    assert(w * y + w <= w * later) by (nonlinear_arith)
        requires
            0 <= w,
            y + 1 <= later,
    ;
    assert(0 <= w * y) by (nonlinear_arith)
        requires
            0 <= w,
            0 <= y,
    ;
}

} // verus!
