//! The renderer, as far as it counts: which pixels there are, where a
//! pixel lies on the screen, and how the colours become an image.
//!
//! The colour of a pixel is the caller's work: the average of the light
//! along its sample rays, tone-mapped and quantised.

use vstd::prelude::*;
use crate::raster::RgbBuffer;
use crate::raster::buffer_samples;
use crate::scene::MAX_RAY_BOUNCE_DEPTH;

verus! {

/// The width of an image, unless a scene says otherwise.
pub const IMAGE_WIDTH: u32 = 200;

/// The height of an image, unless a scene says otherwise.
pub const IMAGE_HEIGHT: u32 = 200;

/// The rays traced for a pixel, unless a scene says otherwise.
pub const SAMPLES_PER_PIXEL: usize = 10;

/// The pattern of `2.2`, the gamma of the tone mapping.
pub const GAMMA_FACTOR_BITS: u64 = 0x4001_9999_9999_999A;

/// What a render is made with.
#[derive(Clone, Copy, Debug, PartialEq, Eq, Structural)]
pub struct RenderConfig {
    /// The size of the image in pixels.
    pub width: u32,
    pub height: u32,
    /// The rays traced for each pixel.
    pub spp: usize,
    /// How often a path may be scattered.
    pub max_depth: usize,
}

impl Default for RenderConfig {
    fn default() -> (r: RenderConfig)
        ensures
            r.width == IMAGE_WIDTH,
            r.height == IMAGE_HEIGHT,
            r.spp == SAMPLES_PER_PIXEL,
            r.max_depth == MAX_RAY_BOUNCE_DEPTH,
    {
        RenderConfig {
            width: IMAGE_WIDTH,
            height: IMAGE_HEIGHT,
            spp: SAMPLES_PER_PIXEL,
            max_depth: MAX_RAY_BOUNCE_DEPTH,
        }
    }
}

/// Where a pixel lies on the screen, in whole pixels: its column from the
/// left and its row from the bottom, each beside the last column or row
/// there is.  A sample's place is this plus an offset below one, divided
/// by the last.
#[derive(Clone, Copy, Debug, PartialEq, Eq, Structural)]
pub struct ScreenCell {
    pub column: u32,
    pub last_column: u32,
    pub row: u32,
    pub last_row: u32,
}

impl RenderConfig {
    /// The image has a pixel, and its samples fit a vector.
    pub open spec fn wf(self) -> bool {
        &&& self.width > 0
        &&& self.height > 0
        &&& 3 * (self.width * self.height) <= isize::MAX
    }

    /// Whether the image has a pixel and its samples fit a vector.
    pub fn is_wf(&self) -> (r: bool)
        ensures
            r == self.wf(),
    {
        if self.width == 0 || self.height == 0 {
            return false;
        }
        assert(self.width * self.height <= 0xFFFF_FFFF * 0xFFFF_FFFF) by (nonlinear_arith)
            requires
                self.width <= 0xFFFF_FFFF,
                self.height <= 0xFFFF_FFFF,
        ;
        let area: u64 = (self.width as u64) * (self.height as u64);
        let most: u64 = isize::MAX as u64;
        area <= most / 3
    }

    /// The place on the screen of the pixel in column `x` of row `y`,
    /// rows counted from the top as an image has them: the screen's rows
    /// run the other way.
    pub fn cell(&self, x: u32, y: u32) -> (r: ScreenCell)
        requires
            x < self.width,
            y < self.height,
        ensures
            r.column == x,
            r.last_column == self.width - 1,
            r.row == self.height - 1 - y,
            r.last_row == self.height - 1,
            r.row <= r.last_row,
            r.column <= r.last_column,
    {
        ScreenCell {
            column: x,
            last_column: self.width - 1,
            row: self.height - y - 1,
            last_row: self.height - 1,
        }
    }

    /// The image of the colours of its pixels, given in the order of
    /// `pixels`: row after row from the top left.
    pub fn image(&self, colors: &Vec<(u8, u8, u8)>) -> (r: RgbBuffer)
        requires
            self.wf(),
            colors@.len() == self.width * self.height,
        ensures
            r.wf(),
            r.width() == self.width,
            r.height() == self.height,
            buffer_samples(r).len() == 3 * (self.width * self.height),
            forall|x: nat, y: nat|
                x < self.width && y < self.height ==> #[trigger] r.pixel(x, y)
                    == colors@[crate::texture::cell(self.width as int, x as int, y as int)],
    {
        let w = self.width;
        let h = self.height;
        proof {
            assert(w <= w * h) by (nonlinear_arith)
                requires
                    0 <= w,
                    1 <= h,
            ;
        }
        let mut img = RgbBuffer::new(w, h);
        let mut at: usize = 0;
        let mut y: u32 = 0;
        while y < h
            invariant
                y <= h,
                w == self.width,
                h == self.height,
                self.wf(),
                colors@.len() == w * h,
                img.wf(),
                img.width() == w,
                img.height() == h,
                buffer_samples(img).len() == 3 * (w * h),
                at == crate::texture::cell(w as int, 0, y as int),
                forall|i: nat, j: nat|
                    i < w && j < y ==> #[trigger] img.pixel(i, j) == colors@[crate::texture::cell(
                        w as int,
                        i as int,
                        j as int,
                    )],
            decreases h - y,
        {
            let mut x: u32 = 0;
            while x < w
                invariant
                    x <= w,
                    y < h,
                    w == self.width,
                    h == self.height,
                    self.wf(),
                    colors@.len() == w * h,
                    img.wf(),
                    img.width() == w,
                    img.height() == h,
                    buffer_samples(img).len() == 3 * (w * h),
                    at == crate::texture::cell(w as int, x as int, y as int),
                    forall|i: nat, j: nat|
                        i < w && (j < y || (j == y && i < x)) ==> #[trigger] img.pixel(i, j)
                            == colors@[crate::texture::cell(w as int, i as int, j as int)],
                decreases w - x,
            {
                proof {
                    crate::texture::lemma_cell_below(w as int, x as int, y as int, h as int);
                    assert(crate::texture::cell(w as int, 0, h as int) == w * h)
                        by (nonlinear_arith);
                }
                let ghost before = img;
                img.put(x, y, colors[at]);
                proof {
                    assert forall|i: nat, j: nat|
                        i < w && (j < y || (j == y && i < x + 1)) implies #[trigger] img.pixel(i, j)
                            == colors@[crate::texture::cell(w as int, i as int, j as int)] by {
                        crate::raster::lemma_put_then_get(
                            buffer_samples(before),
                            w as nat,
                            h as nat,
                            x as nat,
                            y as nat,
                            colors@[at as int],
                            i,
                            j,
                        );
                        if (i, j) != (x as nat, y as nat) {
                            assert(img.pixel(i, j) == before.pixel(i, j));
                        }
                    }
                    crate::raster::lemma_put_then_get(
                        buffer_samples(before),
                        w as nat,
                        h as nat,
                        x as nat,
                        y as nat,
                        colors@[at as int],
                        0,
                        0,
                    );
                }
                at = at + 1;
                x = x + 1;
            }
            proof {
                assert(crate::texture::cell(w as int, w as int, y as int) == crate::texture::cell(
                    w as int,
                    0,
                    y as int + 1,
                )) by (nonlinear_arith);
            }
            y = y + 1;
        }
        img
    }

    /// The pixels of the image in the order of its rows, from the top left:
    /// each as column and row.
    pub fn pixels(&self) -> (r: Vec<(u32, u32)>)
        requires
            self.width * self.height <= usize::MAX,
        ensures
            r@.len() == self.width * self.height,
            forall|x: int, y: int|
                0 <= x < self.width && 0 <= y < self.height ==> r@[#[trigger] crate::texture::cell(
                    self.width as int,
                    x,
                    y,
                )] == (x as u32, y as u32),
    {
        let w = self.width;
        let h = self.height;
        let mut out: Vec<(u32, u32)> = Vec::new();
        let mut y: u32 = 0;
        while y < h
            invariant
                y <= h,
                out@.len() == crate::texture::cell(w as int, 0, y as int),
                forall|i: int, j: int|
                    0 <= i < w && 0 <= j < y ==> out@[#[trigger] crate::texture::cell(
                        w as int,
                        i,
                        j,
                    )] == (i as u32, j as u32),
            decreases h - y,
        {
            let mut x: u32 = 0;
            while x < w
                invariant
                    x <= w,
                    y < h,
                    out@.len() == crate::texture::cell(w as int, x as int, y as int),
                    forall|i: int, j: int|
                        0 <= i < w && 0 <= j < y ==> out@[#[trigger] crate::texture::cell(
                            w as int,
                            i,
                            j,
                        )] == (i as u32, j as u32),
                    forall|i: int|
                        0 <= i < x ==> out@[#[trigger] crate::texture::cell(
                            w as int,
                            i,
                            y as int,
                        )] == (i as u32, y),
                decreases w - x,
            {
                proof {
                    assert forall|i: int, j: int| 0 <= i < w && 0 <= j < y implies #[trigger]
                        crate::texture::cell(w as int, i, j) < out@.len() by {
                        crate::texture::lemma_cell_below(w as int, i, j, y as int);
                    }
                }
                out.push((x, y));
                x = x + 1;
            }
            proof {
                assert(crate::texture::cell(w as int, w as int, y as int) == crate::texture::cell(
                    w as int,
                    0,
                    y as int + 1,
                )) by (nonlinear_arith);
            }
            y = y + 1;
        }
        proof {
            assert(crate::texture::cell(w as int, 0, h as int) == w * h) by (nonlinear_arith);
        }
        out
    }
}

} // verus!
