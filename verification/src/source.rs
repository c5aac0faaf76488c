//! Two-color image sources.
//!
//! A source reports its size and answers, for a point in its own coordinate
//! system, whether the pixel there is lit. How it stores its pixels is its
//! own business.

use vstd::prelude::*;
use crate::geometry::Point;
use crate::geometry::Size;
use embedded_graphics::geometry::OriginDimensions;
use embedded_graphics::image::GetPixel;
use embedded_graphics::image::ImageRaw;
use embedded_graphics::pixelcolor::BinaryColor;

verus! {

/// A two-color image that can be read pixel by pixel.
///
/// The two spec functions are the image as contracts see it. The two methods
/// must return exactly what they say, so that reading a source twice gives
/// the same answers.
pub trait BinarySource {
    /// The width and height of the image. Either may be zero.
    spec fn spec_size(&self) -> Size;

    /// The pixel at `point`, in the image's own coordinates: `Some(true)` for
    /// a lit pixel, `Some(false)` for an unlit one, `None` where the source
    /// has no pixel.
    spec fn spec_pixel(&self, point: Point) -> Option<bool>;

    fn size(&self) -> (size: Size)
        ensures
            size == self.spec_size(),
    ;

    fn pixel(&self, point: Point) -> (pixel: Option<bool>)
        ensures
            pixel == self.spec_pixel(point),
    ;
}

/// The number of bytes that hold one row of `width` one-bit pixels: rows
/// start on a byte boundary.
pub open spec fn row_bytes(width: u32) -> int {
    (width + 7) / 8
}

/// The size of the image that `len` bytes of one-bit pixels make at a given
/// width. The height is the number of whole rows in the data; what it keeps
/// of a count beyond `u32::MAX` are the low 32 bits. At width zero the image
/// is empty.
pub open spec fn packed_size(len: nat, width: u32) -> Size {
    if width == 0 {
        Size { width: 0, height: 0 }
    } else {
        Size { width, height: ((len as int / row_bytes(width)) % 0x1_0000_0000) as u32 }
    }
}

/// What `embedded_graphics::image::ImageRaw<BinaryColor>`, made of `data` at
/// `width`, answers for the pixel at `(x, y)`: `Some(true)` for `On`,
/// `Some(false)` for `Off`, `None` where it has no pixel. The layout of the
/// bits is that crate's; nothing here depends on it.
pub uninterp spec fn packed_pixel(data: Seq<u8>, width: u32, x: i32, y: i32) -> Option<bool>;

/// A bitmap of one bit per pixel, borrowed from a byte slice and read through
/// `embedded_graphics::image::ImageRaw`.
#[derive(Clone, Copy, Debug)]
pub struct RawBitmap<'a> {
    data: &'a [u8],
    width: u32,
}

impl<'a> RawBitmap<'a> {
    /// The index arithmetic of the reader stays within `usize`.
    #[verifier::type_invariant]
    spec fn within_limits(self) -> bool {
        &&& self.width + 7 <= usize::MAX
        &&& self.data@.len() * 8 <= usize::MAX
    }

    /// The bytes that the bitmap reads.
    pub closed spec fn data(self) -> Seq<u8> {
        self.data@
    }

    /// The width that the bitmap was made with.
    pub closed spec fn width(self) -> u32 {
        self.width
    }

    /// A bitmap over `data` with rows of `width` pixels. The height follows
    /// from the length of `data`; a last partial row is ignored.
    pub fn new(data: &'a [u8], width: u32) -> (bitmap: Self)
        requires
            width + 7 <= usize::MAX,
            data@.len() * 8 <= usize::MAX,
        ensures
            bitmap.data() == data@,
            bitmap.width() == width,
    {
        RawBitmap { data, width }
    }
}

impl<'a> BinarySource for RawBitmap<'a> {
    open spec fn spec_size(&self) -> Size {
        packed_size(self.data().len(), self.width())
    }

    open spec fn spec_pixel(&self, point: Point) -> Option<bool> {
        packed_pixel(self.data(), self.width(), point.x, point.y)
    }

    fn size(&self) -> (size: Size) {
        proof {
            use_type_invariant(self);
        }
        image_raw_size(self.data, self.width)
    }

    fn pixel(&self, point: Point) -> (pixel: Option<bool>) {
        proof {
            use_type_invariant(self);
        }
        image_raw_pixel(self.data, self.width, point.x, point.y)
    }
}

/// The size of the `ImageRaw<BinaryColor>` made of `data` at `width`.
///
/// Calls `ImageRaw::new` and `OriginDimensions::size`. The contract claims
/// what `new` stores: size zero at width zero; else the given width, and as
/// height the length of `data` divided by the bytes of a row, converted to
/// `u32`. The `requires` keeps the row length computation within `usize`.
#[verifier::external_body]
fn image_raw_size(data: &[u8], width: u32) -> (size: Size)
    requires
        width + 7 <= usize::MAX,
    ensures
        size == packed_size(data@.len(), width),
{
    let size = ImageRaw::<BinaryColor>::new(data, width).size();
    Size { width: size.width, height: size.height }
}

/// The pixel at `(x, y)` of the `ImageRaw<BinaryColor>` made of `data` at
/// `width`.
///
/// Calls `ImageRaw::new` and `GetPixel::pixel`. The contract claims only that
/// the answer is a function of the bytes, the width and the point. The
/// `requires` keeps the index of the pixel, which is below eight times the
/// length of `data`, within `usize`.
#[verifier::external_body]
fn image_raw_pixel(data: &[u8], width: u32, x: i32, y: i32) -> (pixel: Option<bool>)
    requires
        width + 7 <= usize::MAX,
        data@.len() * 8 <= usize::MAX,
    ensures
        pixel == packed_pixel(data@, width, x, y),
{
    let raw = ImageRaw::<BinaryColor>::new(data, width);
    match raw.pixel(embedded_graphics::geometry::Point::new(x, y)) {
        Some(BinaryColor::On) => Some(true),
        Some(BinaryColor::Off) => Some(false),
        None => None,
    }
}

} // verus!
