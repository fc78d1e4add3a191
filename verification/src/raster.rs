//! The pixel buffer of the `image` crate, as verified code sees it.
//!
//! `RgbBuffer` holds an `image::RgbImage` that Verus does not look into.
//! Two names stand for what the image holds, and the private functions of
//! this file say of `ImageBuffer`'s methods what their source shows; those
//! contracts are believed, not proved.  The public functions are proved
//! from them.

use vstd::prelude::*;

verus! {

/// An 8-bit RGB image: an `image::RgbImage`.
#[verifier::external_body]
pub struct RgbBuffer {
    inner: image::RgbImage,
}

/// The samples of an image in the order of its container: red, green and
/// blue of the top left pixel first, then row after row.
pub uninterp spec fn buffer_samples(img: RgbBuffer) -> Seq<u8>;

/// The width and the height of an image.
pub uninterp spec fn buffer_extent(img: RgbBuffer) -> (nat, nat);

/// `ImageBuffer::new`: an image of the given size whose samples are all
/// zero, three for each pixel.  It counts the samples of a row first and
/// then those of all rows, and panics when either count outgrows a word or
/// the samples outgrow a vector, so `requires` bounds both.
#[verifier::external_body]
fn buffer_new(width: u32, height: u32) -> (r: RgbBuffer)
    requires
        3 * width <= usize::MAX,
        3 * (width * height) <= isize::MAX,
    ensures
        buffer_extent(r) == (width as nat, height as nat),
        buffer_samples(r) == Seq::new((3 * (width * height)) as nat, |i: int| 0u8),
{
    RgbBuffer { inner: image::RgbImage::new(width, height) }
}

/// `ImageBuffer::from_raw`: the image over the given samples, if they are
/// enough for the size: three for each pixel.  More may follow.  It counts
/// the samples of a row first and then those of all rows, and gives no
/// image when the count of a row outgrows a word, even of an image without
/// rows.
#[verifier::external_body]
fn buffer_from_raw(width: u32, height: u32, samples: Vec<u8>) -> (r: Option<RgbBuffer>)
    ensures
        r is Some <==> (3 * width <= usize::MAX && 3 * (width * height) <= samples@.len()),
        r matches Some(img) ==> buffer_extent(img) == (width as nat, height as nat)
            && buffer_samples(img) == samples@,
{
    match image::RgbImage::from_raw(width, height, samples) {
        Some(inner) => Some(RgbBuffer { inner }),
        None => None,
    }
}

/// `ImageBuffer::into_raw`: the samples.
#[verifier::external_body]
fn buffer_into_raw(img: RgbBuffer) -> (r: Vec<u8>)
    ensures
        r@ == buffer_samples(img),
{
    img.inner.into_raw()
}

/// `ImageBuffer::dimensions`: the width and the height.  An image holds
/// the samples of every pixel within them: its constructors see to that.
#[verifier::external_body]
fn buffer_dimensions(img: &RgbBuffer) -> (r: (u32, u32))
    ensures
        buffer_extent(*img) == (r.0 as nat, r.1 as nat),
        3 * (r.0 * r.1) <= buffer_samples(*img).len(),
{
    img.inner.dimensions()
}

/// `ImageBuffer::get_pixel`: the three samples of the pixel at `(x, y)`.
/// It panics outside the image, so `requires` keeps the place inside.
#[verifier::external_body]
fn buffer_get(img: &RgbBuffer, x: u32, y: u32) -> (r: (u8, u8, u8))
    requires
        x < buffer_extent(*img).0,
        y < buffer_extent(*img).1,
    ensures
        r == pixel_at(buffer_samples(*img), buffer_extent(*img).0, x as nat, y as nat),
{
    let p = img.inner.get_pixel(x, y);
    (p.0[0], p.0[1], p.0[2])
}

/// `ImageBuffer::put_pixel`: the three samples of the pixel at `(x, y)`
/// are replaced; the other samples and the size stay.  It panics outside
/// the image.
#[verifier::external_body]
fn buffer_put(img: &mut RgbBuffer, x: u32, y: u32, rgb: (u8, u8, u8))
    requires
        x < buffer_extent(*old(img)).0,
        y < buffer_extent(*old(img)).1,
    ensures
        buffer_extent(*final(img)) == buffer_extent(*old(img)),
        buffer_samples(*final(img)) == with_pixel(
            buffer_samples(*old(img)),
            buffer_extent(*old(img)).0,
            x as nat,
            y as nat,
            rgb,
        ),
{
    img.inner.put_pixel(x, y, image::Rgb([rgb.0, rgb.1, rgb.2]))
}

/// Where the samples of pixel `(x, y)` begin in an image `width` wide.
pub open spec fn offset(width: nat, x: nat, y: nat) -> int {
    3 * (y * width + x) as int
}

/// The pixel `(x, y)` of the samples of an image `width` wide.
pub open spec fn pixel_at(samples: Seq<u8>, width: nat, x: nat, y: nat) -> (u8, u8, u8) {
    let at = offset(width, x, y);
    (samples[at], samples[at + 1], samples[at + 2])
}

/// The samples with pixel `(x, y)` replaced.
pub open spec fn with_pixel(samples: Seq<u8>, width: nat, x: nat, y: nat, rgb: (u8, u8, u8)) -> Seq<
    u8,
> {
    let at = offset(width, x, y);
    samples.update(at, rgb.0).update(at + 1, rgb.1).update(at + 2, rgb.2)
}

impl RgbBuffer {
    /// The width of the image.
    pub open spec fn width(self) -> nat {
        buffer_extent(self).0
    }

    /// The height of the image.
    pub open spec fn height(self) -> nat {
        buffer_extent(self).1
    }

    /// The pixel at `(x, y)`.
    pub open spec fn pixel(self, x: nat, y: nat) -> (u8, u8, u8) {
        pixel_at(buffer_samples(self), self.width(), x, y)
    }

    /// The image holds the samples of each of its pixels.
    pub open spec fn wf(self) -> bool {
        3 * (self.width() * self.height()) <= buffer_samples(self).len()
    }

    /// A black image of the given size.  The samples of a row have to fit
    /// a word, and those of the image a vector.
    pub fn new(width: u32, height: u32) -> (r: RgbBuffer)
        requires
            3 * width <= usize::MAX,
            3 * (width * height) <= isize::MAX,
        ensures
            r.wf(),
            r.width() == width,
            r.height() == height,
            buffer_samples(r).len() == 3 * (width * height),
            forall|i: int| 0 <= i < 3 * (width * height) ==> buffer_samples(r)[i] == 0,
    {
        buffer_new(width, height)
    }

    /// The image over decoded samples: `None` when they are fewer than
    /// three for each pixel, or when the samples of one row do not fit a
    /// word.
    pub fn from_raw(width: u32, height: u32, samples: Vec<u8>) -> (r: Option<RgbBuffer>)
        ensures
            r is Some <==> (3 * width <= usize::MAX && 3 * (width * height) <= samples@.len()),
            r matches Some(img) ==> img.wf() && img.width() == width && img.height() == height
                && buffer_samples(img) == samples@,
    {
        buffer_from_raw(width, height, samples)
    }

    /// The samples, to be encoded.
    pub fn into_raw(self) -> (r: Vec<u8>)
        ensures
            r@ == buffer_samples(self),
    {
        buffer_into_raw(self)
    }

    /// The width and the height.
    pub fn dimensions(&self) -> (r: (u32, u32))
        ensures
            r.0 == self.width(),
            r.1 == self.height(),
            self.wf(),
    {
        buffer_dimensions(self)
    }

    /// The pixel at `(x, y)` of the image.
    pub fn at(&self, x: u32, y: u32) -> (r: (u8, u8, u8))
        requires
            x < self.width(),
            y < self.height(),
        ensures
            r == self.pixel(x as nat, y as nat),
    {
        buffer_get(self, x, y)
    }

    /// The image with the pixel at `(x, y)` replaced.
    pub fn put(&mut self, x: u32, y: u32, rgb: (u8, u8, u8))
        requires
            x < old(self).width(),
            y < old(self).height(),
        ensures
            final(self).width() == old(self).width(),
            final(self).height() == old(self).height(),
            buffer_samples(*final(self)) == with_pixel(
                buffer_samples(*old(self)),
                old(self).width(),
                x as nat,
                y as nat,
                rgb,
            ),
    {
        buffer_put(self, x, y, rgb)
    }

    /// The pixel at `(x, y)`, or `None` outside the image.
    pub fn get(&self, x: u32, y: u32) -> (r: Option<(u8, u8, u8)>)
        ensures
            r == if x < self.width() && y < self.height() {
                Some(self.pixel(x as nat, y as nat))
            } else {
                None
            },
    {
        let (w, h) = buffer_dimensions(self);
        if x < w && y < h {
            Some(buffer_get(self, x, y))
        } else {
            None
        }
    }
}

/// The samples of different pixels of an image lie apart, and inside the
/// image.
pub proof fn lemma_pixels_apart(width: nat, height: nat, x: nat, y: nat, i: nat, j: nat)
    requires
        x < width,
        y < height,
        i < width,
        j < height,
    ensures
        0 <= offset(width, x, y),
        offset(width, x, y) + 3 <= 3 * (width * height),
        (i, j) != (x, y) ==> offset(width, i, j) + 3 <= offset(width, x, y) || offset(width, x, y)
            + 3 <= offset(width, i, j),
{
    assert(y * width + width <= height * width) by (nonlinear_arith)
        requires
            y + 1 <= height,
    ;
    assert(height * width == width * height) by (nonlinear_arith);
    if j < y {
        assert(j * width + width <= y * width) by (nonlinear_arith)
            requires
                j + 1 <= y,
        ;
    } else if y < j {
        assert(y * width + width <= j * width) by (nonlinear_arith)
            requires
                y + 1 <= j,
        ;
    }
}

/// A pixel that was put is the pixel that is got, and the other pixels of
/// the image are as they were.
pub proof fn lemma_put_then_get(
    samples: Seq<u8>,
    width: nat,
    height: nat,
    x: nat,
    y: nat,
    rgb: (u8, u8, u8),
    i: nat,
    j: nat,
)
    requires
        3 * (width * height) <= samples.len(),
        x < width,
        y < height,
        i < width,
        j < height,
    ensures
        with_pixel(samples, width, x, y, rgb).len() == samples.len(),
        pixel_at(with_pixel(samples, width, x, y, rgb), width, i, j) == if (i, j) == (x, y) {
            rgb
        } else {
            pixel_at(samples, width, i, j)
        },
{
    lemma_pixels_apart(width, height, x, y, i, j);
    lemma_pixels_apart(width, height, i, j, x, y);
}

} // verus!
