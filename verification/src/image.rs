//! The positioned, color-cast image.

use vstd::prelude::*;
use crate::geometry::Point;
use crate::geometry::Rectangle;
use crate::geometry::Size;
use crate::pixels::Pixels;
use crate::sink::DrawSink;
use crate::source::BinarySource;

verus! {

/// A colored pixel at a position.
#[derive(Clone, Copy, Debug, PartialEq, Eq)]
pub struct Pixel<C>(pub Point, pub C);

/// What an [`Image`] is to its contracts: the source it reads, where it
/// stands, and the color it gives to lit pixels.
pub struct ImageView<T, C> {
    pub source: T,
    pub position: Point,
    pub color: C,
}

/// The point number `k`, counting from zero, of a box with `columns` columns
/// walked row by row from the top, each row from the left.
pub open spec fn local_point(columns: int, k: int) -> Point {
    Point { x: (k % columns) as i32, y: (k / columns) as i32 }
}

/// The points of a box of size `size` anchored at the origin, row by row from
/// the top, each row from the left. Of a side longer than `i32::MAX` only the
/// part that a `Point` can address is walked.
pub open spec fn local_points(size: Size) -> Seq<Point> {
    Seq::new(
        (size.spec_columns() * size.spec_rows()) as nat,
        |k: int| local_point(size.spec_columns(), k),
    )
}

/// The point in column `x` of row `y` is point number `y * columns + x` of
/// the walk.
pub proof fn lemma_local_point_at(size: Size, x: int, y: int)
    requires
        0 <= x < size.spec_columns(),
        0 <= y < size.spec_rows(),
    ensures
        0 <= y * size.spec_columns() + x < local_points(size).len(),
        local_points(size)[y * size.spec_columns() + x] == (Point { x: x as i32, y: y as i32 }),
{
    let columns = size.spec_columns();
    let rows = size.spec_rows();
    let k = y * columns + x;
    assert(0 <= k < columns * rows) by (nonlinear_arith)
        requires
            0 <= x < columns,
            0 <= y < rows,
            k == y * columns + x,
    ;
    vstd::arithmetic::div_mod::lemma_fundamental_div_mod_converse(k, columns, y, x);
}

impl<T: BinarySource, C> ImageView<T, C> {
    /// Whether the source's pixel at `local` is lit. A point for which the
    /// source has no pixel counts as unlit.
    pub open spec fn lit(self, local: Point) -> bool {
        self.source.spec_pixel(local) == Some(true)
    }

    /// The pixel drawn for a lit source pixel at `local`.
    pub open spec fn project(self, local: Point) -> Pixel<C> {
        Pixel(self.position.spec_wrapping_add(local), self.color)
    }

    /// The source's own box, moved to the image's position.
    pub open spec fn bounding_box(self) -> Rectangle {
        Rectangle { top_left: Point { x: 0, y: 0 }, size: self.source.spec_size() }.spec_translate(
            self.position,
        )
    }

    /// The same image, moved by `by`.
    pub open spec fn translate(self, by: Point) -> Self {
        ImageView {
            source: self.source,
            position: self.position.spec_wrapping_add(by),
            color: self.color,
        }
    }

    /// [`Self::lit`] as a predicate on points.
    pub open spec fn lit_points(self) -> spec_fn(Point) -> bool {
        |local: Point| self.lit(local)
    }

    /// [`Self::project`] as a mapping of points.
    pub open spec fn projection(self) -> spec_fn(Point) -> Pixel<C> {
        |local: Point| self.project(local)
    }

    /// What drawing emits for the points of the source's box from number
    /// `from` on: the lit ones, in the order of the walk, each projected.
    pub open spec fn pixels_from(self, from: int) -> Seq<Pixel<C>> {
        local_points(self.source.spec_size()).skip(from).filter(self.lit_points()).map_values(
            self.projection(),
        )
    }

    /// Everything that drawing emits, in order.
    pub open spec fn pixels(self) -> Seq<Pixel<C>> {
        self.pixels_from(0)
    }

    /// What is emitted from point number `k` on is what point `k` gives,
    /// followed by what is emitted from point `k + 1` on.
    pub proof fn lemma_pixels_from_step(self, k: int)
        requires
            0 <= k < local_points(self.source.spec_size()).len(),
        ensures
            self.pixels_from(k) == if self.lit(local_points(self.source.spec_size())[k]) {
                seq![self.project(local_points(self.source.spec_size())[k])] + self.pixels_from(
                    k + 1,
                )
            } else {
                self.pixels_from(k + 1)
            },
    {
        let points = local_points(self.source.spec_size());
        let head = seq![points[k]];
        let tail = points.skip(k + 1);
        assert(points.skip(k) =~= head + tail);
        Seq::filter_distributes_over_add(head, tail, self.lit_points());
        assert(head.filter(self.lit_points()) =~= if self.lit(points[k]) {
            head
        } else {
            Seq::empty()
        }) by {
            reveal_with_fuel(Seq::filter, 2);
            assert(head.drop_last() =~= Seq::empty());
        }
        let kept = tail.filter(self.lit_points());
        if self.lit(points[k]) {
            assert((head + kept).map_values(self.projection()) =~= seq![self.project(points[k])]
                + kept.map_values(self.projection()));
        } else {
            assert(Seq::<Point>::empty() + kept =~= kept);
        }
    }

    /// Past the last point nothing is emitted.
    pub proof fn lemma_pixels_from_end(self)
        ensures
            self.pixels_from(local_points(self.source.spec_size()).len() as int) == Seq::<
                Pixel<C>,
            >::empty(),
    {
        let points = local_points(self.source.spec_size());
        assert(points.skip(points.len() as int) =~= Seq::empty());
        assert(Seq::<Point>::empty().filter(self.lit_points()) =~= Seq::empty()) by {
            reveal_with_fuel(Seq::filter, 1);
        }
        assert(Seq::<Point>::empty().map_values(self.projection()) =~= Seq::empty());
    }
}

/// A two-color image placed at a position, whose lit pixels are drawn in one
/// color and whose unlit pixels are not drawn at all.
///
/// The image borrows its source and never changes it. Only the translate
/// operations change the position; nothing changes the color.
#[derive(Clone, Copy, Debug)]
pub struct Image<'a, T: BinarySource, C: Copy> {
    image: &'a T,
    position: Point,
    color: C,
}

impl<'a, T: BinarySource, C: Copy> View for Image<'a, T, C> {
    type V = ImageView<T, C>;

    closed spec fn view(&self) -> ImageView<T, C> {
        ImageView { source: *self.image, position: self.position, color: self.color }
    }
}

impl<'a, T: BinarySource, C: Copy> Image<'a, T, C> {
    /// An image of `image` with its top left corner at `position`.
    pub fn new(image: &'a T, position: Point, color: C) -> (created: Self)
        ensures
            created@ == (ImageView { source: *image, position, color }),
    {
        Image { image, position, color }
    }

    /// An image of `image` centered on `center`, as
    /// [`Rectangle::with_center`] centers a rectangle of the source's size.
    pub fn with_center(image: &'a T, center: Point, color: C) -> (created: Self)
        ensures
            created@ == (ImageView {
                source: *image,
                position: Rectangle::spec_with_center(center, image.spec_size()).top_left,
                color,
            }),
            created@.bounding_box() == Rectangle::spec_with_center(center, image.spec_size()),
    {
        let position = Rectangle::with_center(center, image.size()).top_left;
        Image { image, position, color }
    }

    /// The rectangle that bounds every pixel the image can draw, lit or not.
    pub fn bounding_box(&self) -> (bounds: Rectangle)
        ensures
            bounds == self@.bounding_box(),
    {
        Rectangle::new(Point::zero(), self.image.size()).translate(self.position)
    }

    /// A copy of the image moved by `by`. The receiver stays as it is.
    pub fn translate(&self, by: Point) -> (moved: Self)
        ensures
            moved@ == self@.translate(by),
    {
        Image { image: self.image, position: self.position.wrapping_add(by), color: self.color }
    }

    /// The pixels of the image as a stream: for every lit point of the
    /// source, row by row from the top and from left to right within a row,
    /// the point moved by the image's position, in the image's color.
    pub fn pixels(&self) -> (pixels: Pixels<'a, T, C>)
        ensures
            pixels@ == self@.pixels(),
    {
        Pixels::start(self.image, self.position, self.color)
    }

    /// Draws the image: hands the stream of its pixels to `target` and
    /// returns what `target` returns.
    pub fn draw<D: DrawSink<C>>(&self, target: &mut D) -> (result: Result<(), D::Error>)
        ensures
            D::drawn(old(target), self@.pixels(), final(target), result),
    {
        target.draw_iter(self.pixels())
    }

    /// Moves the image by `by` in place and hands the image back for further
    /// calls. What the caller then does through the returned reference is
    /// what the image ends as.
    pub fn translate_mut(&mut self, by: Point) -> (moved: &mut Self)
        ensures
            (*moved)@ == old(self)@.translate(by),
            *final(self) == *final(moved),
    {
        self.position = self.position.wrapping_add(by);
        self
    }
}

} // verus!
