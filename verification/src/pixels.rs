//! The pixels of an image as a stream that computes one pixel at a time.

use vstd::prelude::*;
use crate::geometry::Point;
use crate::image::lemma_local_point_at;
use crate::image::local_points;
use crate::image::ImageView;
use crate::image::Pixel;
use crate::source::BinarySource;

verus! {

/// The pixels that an image has yet to emit.
///
/// The stream holds no pixel: each call of [`Pixels::next`] reads the source
/// from where the last call stopped. Its view is the sequence of pixels that
/// the calls to come will return.
pub struct Pixels<'a, T: BinarySource, C: Copy> {
    source: &'a T,
    position: Point,
    color: C,
    columns: i32,
    rows: i32,
    x: i32,
    y: i32,
}

impl<'a, T: BinarySource, C: Copy> Pixels<'a, T, C> {
    /// The cursor `(x, y)` is the next point to read; it stays within the
    /// source's box, and stands at the start of the row past the last when
    /// the walk is over.
    #[verifier::type_invariant]
    spec fn cursor_in_box(self) -> bool {
        &&& self.columns == self.source.spec_size().spec_columns()
        &&& self.rows == self.source.spec_size().spec_rows()
        &&& 0 <= self.x <= self.columns
        &&& 0 <= self.y <= self.rows
        &&& self.y == self.rows ==> self.x == 0
    }

    /// The image that the stream reads.
    spec fn image(self) -> ImageView<T, C> {
        ImageView { source: *self.source, position: self.position, color: self.color }
    }

    /// The number of the point under the cursor.
    spec fn cursor(self) -> int {
        self.y * self.columns + self.x
    }

    /// The stream of all pixels of the image of `source` at `position` in
    /// `color`.
    pub(crate) fn start(source: &'a T, position: Point, color: C) -> (pixels: Self)
        ensures
            pixels@ == (ImageView { source: *source, position, color }).pixels(),
    {
        let size = source.size();
        let columns: i32 = size.columns();
        let rows: i32 = size.rows();
        let y: i32 = if columns == 0 {
            rows
        } else {
            0
        };
        assert(y * columns == 0) by (nonlinear_arith)
            requires
                y == 0 || columns == 0,
        ;
        Pixels { source, position, color, columns, rows, x: 0, y }
    }

    /// The next pixel of the image, or `None` when every point of the source
    /// has been read. Points that are not lit are passed over.
    pub fn next(&mut self) -> (pixel: Option<Pixel<C>>)
        ensures
            match pixel {
                Some(p) => old(self)@.len() > 0 && p == old(self)@[0] && final(self)@ == old(
                    self,
                )@.skip(1),
                None => old(self)@.len() == 0 && final(self)@.len() == 0,
            },
    {
        proof {
            use_type_invariant(&*self);
        }
        while self.y < self.rows
            invariant
                self.cursor_in_box(),
                self.image() == old(self).image(),
                self@ == old(self)@,
            decreases self.rows - self.y, self.columns - self.x,
        {
            if self.x < self.columns {
                let local = Point { x: self.x, y: self.y };
                proof {
                    lemma_local_point_at(self.source.spec_size(), self.x as int, self.y as int);
                    self.image().lemma_pixels_from_step(self.cursor());
                }
                self.x = self.x + 1;
                if let Some(true) = self.source.pixel(local) {
                    let pixel = Pixel(self.position.wrapping_add(local), self.color);
                    assert(self@ =~= old(self)@.skip(1));
                    return Some(pixel);
                }
            } else {
                assert((self.y + 1) * self.columns == self.y * self.columns + self.columns)
                    by (nonlinear_arith);
                self.x = 0;
                self.y = self.y + 1;
            }
        }
        proof {
            self.image().lemma_pixels_from_end();
            assert(self.cursor() == local_points(self.source.spec_size()).len()) by (nonlinear_arith)
                requires
                    self.x == 0,
                    self.y == self.rows,
                    self.cursor() == self.y * self.columns + self.x,
                    local_points(self.source.spec_size()).len() == self.columns * self.rows,
                    0 <= self.columns,
                    0 <= self.rows,
            ;
        }
        None
    }
}

impl<'a, T: BinarySource, C: Copy> View for Pixels<'a, T, C> {
    type V = Seq<Pixel<C>>;

    closed spec fn view(&self) -> Seq<Pixel<C>> {
        self.image().pixels_from(self.cursor())
    }
}

} // verus!
