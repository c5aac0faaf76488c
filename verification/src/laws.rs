//! What holds of every image, proved over [`ImageView`].

use vstd::prelude::*;
use crate::geometry::Point;
use crate::geometry::Rectangle;
use crate::geometry::Size;
use crate::image::lemma_local_point_at;
use crate::image::local_points;
use crate::image::ImageView;
use crate::image::Pixel;
use crate::source::BinarySource;

verus! {

/// Whether `a` is met before `b` when points are walked row by row from the
/// top, each row from the left.
pub open spec fn row_major_before(a: Point, b: Point) -> bool {
    a.y < b.y || (a.y == b.y && a.x < b.x)
}

impl<T: BinarySource, C> ImageView<T, C> {
    /// Whether `local` is a point of the source's box that a `Point` can
    /// address.
    pub open spec fn in_box(self, local: Point) -> bool {
        &&& 0 <= local.x < self.source.spec_size().spec_columns()
        &&& 0 <= local.y < self.source.spec_size().spec_rows()
    }

    /// The point of the source that stands behind a pixel of this image.
    pub open spec fn local_of(self, pixel: Pixel<C>) -> Point {
        pixel.0.spec_wrapping_sub(self.position)
    }
}

/// Two entries of a filtered sequence stand in the sequence itself in the
/// same order.
proof fn lemma_filter_keeps_order<A>(s: Seq<A>, pred: spec_fn(A) -> bool, i: int, j: int)
    requires
        0 <= i < j < s.filter(pred).len(),
    ensures
        exists|a: int, b: int|
            0 <= a < b < s.len() && #[trigger] s[a] == s.filter(pred)[i] && #[trigger] s[b]
                == s.filter(pred)[j],
    decreases s.len(),
{
    reveal(Seq::filter);
    let front = s.drop_last();
    let kept = front.filter(pred);
    if pred(s.last()) && j == kept.len() {
        front.lemma_filter_contains_rev(pred, kept[i]);
        let a = choose|a: int| 0 <= a < front.len() && front[a] == kept[i];
        let b = s.len() - 1;
        assert(0 <= a < b < s.len() && s[a] == s.filter(pred)[i] && s[b] == s.filter(pred)[j]);
    } else {
        lemma_filter_keeps_order(front, pred, i, j);
        let (a, b) = choose|a: int, b: int|
            0 <= a < b < front.len() && #[trigger] front[a] == kept[i] && #[trigger] front[b]
                == kept[j];
        assert(0 <= a < b < s.len() && s[a] == s.filter(pred)[i] && s[b] == s.filter(pred)[j]);
    }
}

/// Point number `k` of the walk lies in column `k % columns` of row
/// `k / columns`, inside the box.
proof fn lemma_local_point_in_box(size: Size, k: int)
    requires
        0 <= k < local_points(size).len(),
    ensures
        local_points(size)[k].x == k % size.spec_columns(),
        local_points(size)[k].y == k / size.spec_columns(),
        0 <= k % size.spec_columns() < size.spec_columns(),
        0 <= k / size.spec_columns() < size.spec_rows(),
        k == (k / size.spec_columns()) * size.spec_columns() + k % size.spec_columns(),
{
    let columns = size.spec_columns();
    let rows = size.spec_rows();
    assert(columns > 0) by (nonlinear_arith)
        requires
            0 <= k < columns * rows,
            0 <= columns,
            0 <= rows,
    ;
    vstd::arithmetic::div_mod::lemma_fundamental_div_mod(k, columns);
    let x = k % columns;
    let y = k / columns;
    assert(0 <= y < rows) by (nonlinear_arith)
        requires
            0 <= k < columns * rows,
            k == columns * y + x,
            0 <= x < columns,
    ;
    assert(k == y * columns + x) by (nonlinear_arith)
        requires
            k == columns * y + x,
    ;
}

/// The walk meets an earlier point number before a later one.
proof fn lemma_walk_is_row_major(size: Size, a: int, b: int)
    requires
        0 <= a < b < local_points(size).len(),
    ensures
        row_major_before(local_points(size)[a], local_points(size)[b]),
{
    let columns = size.spec_columns();
    lemma_local_point_in_box(size, a);
    lemma_local_point_in_box(size, b);
    let (xa, ya) = (a % columns, a / columns);
    let (xb, yb) = (b % columns, b / columns);
    assert(ya < yb || (ya == yb && xa < xb)) by (nonlinear_arith)
        requires
            a < b,
            a == ya * columns + xa,
            b == yb * columns + xb,
            0 <= xa < columns,
            0 <= xb < columns,
    ;
}

/// Every pixel that an image emits stands for a lit point of the source's
/// box, and is that point moved by the image's position, in the image's
/// color.
pub proof fn lemma_emitted_pixel_is_lit<T: BinarySource, C>(image: ImageView<T, C>, i: int)
    requires
        0 <= i < image.pixels().len(),
    ensures
        image.in_box(image.local_of(image.pixels()[i])),
        image.lit(image.local_of(image.pixels()[i])),
        image.pixels()[i] == image.project(image.local_of(image.pixels()[i])),
{
    let points = local_points(image.source.spec_size());
    assert(points.skip(0) =~= points);
    let kept = points.filter(image.lit_points());
    points.lemma_filter_pred(image.lit_points(), i);
    points.lemma_filter_contains_rev(image.lit_points(), kept[i]);
    let k = choose|k: int| 0 <= k < points.len() && points[k] == kept[i];
    lemma_local_point_in_box(image.source.spec_size(), k);
}

/// Pixel fidelity: for a point of the source's box, the pixel that projects
/// it is among the emitted pixels if and only if the point is lit.
pub proof fn lemma_pixel_fidelity<T: BinarySource, C>(image: ImageView<T, C>, local: Point)
    requires
        image.in_box(local),
    ensures
        image.pixels().contains(image.project(local)) <==> image.lit(local),
{
    let size = image.source.spec_size();
    let points = local_points(size);
    assert(points.skip(0) =~= points);
    let kept = points.filter(image.lit_points());
    if image.lit(local) {
        let k = local.y * size.spec_columns() + local.x;
        lemma_local_point_at(size, local.x as int, local.y as int);
        points.lemma_filter_contains(image.lit_points(), k);
        let i = choose|i: int| 0 <= i < kept.len() && kept[i] == local;
        assert(image.pixels()[i] == image.project(local));
    }
    if image.pixels().contains(image.project(local)) {
        let i = choose|i: int|
            0 <= i < image.pixels().len() && image.pixels()[i] == image.project(local);
        lemma_emitted_pixel_is_lit(image, i);
    }
}

/// Emission order: of two emitted pixels, the earlier one stands for the
/// point that the row-by-row walk of the source's box meets first, whatever
/// the pattern of lit points.
pub proof fn lemma_emission_order<T: BinarySource, C>(image: ImageView<T, C>, i: int, j: int)
    requires
        0 <= i < j < image.pixels().len(),
    ensures
        row_major_before(
            image.local_of(image.pixels()[i]),
            image.local_of(image.pixels()[j]),
        ),
{
    let size = image.source.spec_size();
    let points = local_points(size);
    assert(points.skip(0) =~= points);
    let kept = points.filter(image.lit_points());
    lemma_filter_keeps_order(points, image.lit_points(), i, j);
    let (a, b) = choose|a: int, b: int|
        0 <= a < b < points.len() && #[trigger] points[a] == kept[i] && #[trigger] points[b]
            == kept[j];
    lemma_walk_is_row_major(size, a, b);
    lemma_local_point_in_box(size, a);
    lemma_local_point_in_box(size, b);
}

/// No pixel is emitted twice.
pub proof fn lemma_no_pixel_twice<T: BinarySource, C>(image: ImageView<T, C>)
    ensures
        image.pixels().no_duplicates(),
{
    assert forall|i: int, j: int|
        0 <= i < image.pixels().len() && 0 <= j < image.pixels().len() && i != j implies image.pixels()[i]
        != image.pixels()[j] by {
        if i < j {
            lemma_emission_order(image, i, j);
        } else {
            lemma_emission_order(image, j, i);
        }
    }
}

/// Bounding-box translation: the bounding box of an image is the source's
/// own box, which is anchored at the origin, moved by the image's position.
/// So it has the position as its top left corner and the source's size.
pub proof fn lemma_bounding_box_translation<T: BinarySource, C>(image: ImageView<T, C>)
    ensures
        image.bounding_box() == (Rectangle {
            top_left: Point { x: 0, y: 0 },
            size: image.source.spec_size(),
        }).spec_translate(image.position),
        image.bounding_box() == (Rectangle {
            top_left: image.position,
            size: image.source.spec_size(),
        }),
{
}

/// The bounding box bounds every pixel that the image emits, as long as the
/// box lies within the range of coordinates, so that no position wraps.
pub proof fn lemma_pixels_within_bounding_box<T: BinarySource, C>(image: ImageView<T, C>, i: int)
    requires
        0 <= i < image.pixels().len(),
        image.position.x + image.source.spec_size().width - 1 <= i32::MAX,
        image.position.y + image.source.spec_size().height - 1 <= i32::MAX,
    ensures
        image.bounding_box().spec_contains(image.pixels()[i].0),
{
    lemma_emitted_pixel_is_lit(image, i);
}

/// Translate composition: after two moves the bounding box has its corner
/// where the first corner lies moved by the one and then by the other; and
/// two moves are one move by the sum.
pub proof fn lemma_translate_composition<T: BinarySource, C>(
    image: ImageView<T, C>,
    a: Point,
    b: Point,
)
    ensures
        image.translate(a).translate(b).bounding_box().top_left
            == image.bounding_box().top_left.spec_wrapping_add(a).spec_wrapping_add(b),
        image.translate(a).translate(b) == image.translate(a.spec_wrapping_add(b)),
{
}

/// Centering: an image whose position is the corner of the rectangle of the
/// source's size centered on `center` has that rectangle as its bounding box.
pub proof fn lemma_centered_bounding_box<T: BinarySource, C>(
    image: ImageView<T, C>,
    center: Point,
)
    requires
        image.position == Rectangle::spec_with_center(center, image.source.spec_size()).top_left,
    ensures
        image.bounding_box() == Rectangle::spec_with_center(center, image.source.spec_size()),
{
}

/// Degenerate source: an image of a source without width or without height
/// emits no pixel, and its bounding box holds no pixel, wherever it stands
/// and whatever its color.
pub proof fn lemma_empty_source<T: BinarySource, C>(image: ImageView<T, C>)
    requires
        image.source.spec_size().spec_is_empty(),
    ensures
        image.pixels() == Seq::<Pixel<C>>::empty(),
        image.bounding_box().size.spec_is_empty(),
{
    let size = image.source.spec_size();
    assert(size.spec_columns() * size.spec_rows() == 0) by (nonlinear_arith)
        requires
            size.spec_columns() == 0 || size.spec_rows() == 0,
    ;
    image.lemma_pixels_from_end();
}

} // verus!
