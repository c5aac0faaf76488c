use embedded_graphics::draw_target::DrawTarget;
use embedded_graphics::geometry::Point as GraphicsPoint;
use embedded_graphics::image::{GetPixel, ImageRaw};
use embedded_graphics::mock_display::MockDisplay;
use embedded_graphics::pixelcolor::{BinaryColor, Rgb565, Rgb666, Rgb888};
use embedded_graphics::prelude::RgbColor;
use embedded_graphics::Pixel as GraphicsPixel;
use embedded_graphics_colorcast::geometry::{Point, Size};
use embedded_graphics_colorcast::image::Pixel;
use embedded_graphics_colorcast::pixels::Pixels;
use embedded_graphics_colorcast::sink::DrawSink;
use embedded_graphics_colorcast::source::{BinarySource, RawBitmap};
use embedded_graphics_colorcast::Image;

const SAMPLE: [u8; 16] = [
    0x00, 0x00, 0xF8, 0x00, 0x07, 0xE0, 0xFF, 0xE0, //
    0x00, 0x1F, 0x07, 0xFF, 0xF8, 0x1F, 0xFF, 0xFF, //
];

/// A source given by rows of text: `#` is lit, `.` is unlit, anything else is
/// a point for which the source has no pixel.
struct Pattern {
    rows: Vec<&'static str>,
    width: u32,
}

impl Pattern {
    fn new(rows: &[&'static str], width: u32) -> Self {
        Pattern { rows: rows.to_vec(), width }
    }
}

impl BinarySource for Pattern {
    fn spec_size(&self) -> Size {
        self.size()
    }

    fn spec_pixel(&self, point: Point) -> Option<bool> {
        self.pixel(point)
    }

    fn size(&self) -> Size {
        Size::new(self.width, self.rows.len() as u32)
    }

    fn pixel(&self, point: Point) -> Option<bool> {
        if point.x < 0 || point.y < 0 {
            return None;
        }
        let row = self.rows.get(point.y as usize)?;
        match row.as_bytes().get(point.x as usize) {
            Some(b'#') => Some(true),
            Some(b'.') => Some(false),
            _ => None,
        }
    }
}

/// A sink that keeps what it is given and fails once it holds `limit` pixels
/// and is offered one more.
struct Bounded<C> {
    taken: Vec<Pixel<C>>,
    limit: usize,
    calls: usize,
}

impl<C> Bounded<C> {
    fn new(limit: usize) -> Self {
        Bounded { taken: Vec::new(), limit, calls: 0 }
    }
}

#[derive(Debug, PartialEq)]
struct Full {
    at: usize,
}

impl<C: Copy> DrawSink<C> for Bounded<C> {
    type Error = Full;

    fn draw_iter<T: BinarySource>(&mut self, mut pixels: Pixels<'_, T, C>) -> Result<(), Full> {
        self.calls += 1;
        while let Some(pixel) = pixels.next() {
            if self.taken.len() == self.limit {
                return Err(Full { at: self.limit });
            }
            self.taken.push(pixel);
        }
        Ok(())
    }
}

/// A sink that fails without looking at what it is given.
struct Broken;

impl<C: Copy> DrawSink<C> for Broken {
    type Error = &'static str;

    fn draw_iter<T: BinarySource>(&mut self, _pixels: Pixels<'_, T, C>) -> Result<(), &'static str> {
        Err("no surface")
    }
}

/// A sink that hands every pixel to a draw target of the graphics crate.
struct Surface<'d, D>(&'d mut D);

impl<'d, D: DrawTarget> DrawSink<D::Color> for Surface<'d, D> {
    type Error = D::Error;

    fn draw_iter<T: BinarySource>(
        &mut self,
        mut pixels: Pixels<'_, T, D::Color>,
    ) -> Result<(), D::Error> {
        self.0.draw_iter(std::iter::from_fn(|| {
            pixels
                .next()
                .map(|Pixel(point, color)| GraphicsPixel(GraphicsPoint::new(point.x, point.y), color))
        }))
    }
}

fn collect<T: BinarySource, C: Copy>(image: &Image<'_, T, C>) -> Vec<Pixel<C>> {
    let mut pixels = image.pixels();
    let mut out = Vec::new();
    while let Some(pixel) = pixels.next() {
        out.push(pixel);
    }
    out
}

fn at<C: Copy>(points: &[(i32, i32)], color: C) -> Vec<Pixel<C>> {
    points.iter().map(|&(x, y)| Pixel(Point::new(x, y), color)).collect()
}

#[test]
fn sample_bitmap_at_width_four_in_white() {
    let bitmap = RawBitmap::new(&SAMPLE, 4);
    let image = Image::new(&bitmap, Point::zero(), Rgb565::WHITE);
    let expected = at(
        &[
            (0, 2), (1, 2), (2, 2), (3, 2), //
            (0, 5), (1, 5), (2, 5), //
            (0, 6), (1, 6), (2, 6), (3, 6), //
            (0, 7), (1, 7), (2, 7), //
            (3, 9), //
            (0, 11), (1, 11), (2, 11), (3, 11), //
            (0, 12), (1, 12), (2, 12), (3, 12), //
            (3, 13), //
            (0, 14), (1, 14), (2, 14), (3, 14), //
            (0, 15), (1, 15), (2, 15), (3, 15), //
        ],
        Rgb565::WHITE,
    );
    assert_eq!(collect(&image), expected);
    let mut drawn = Vec::new();
    assert!(image.draw(&mut drawn).is_ok());
    assert_eq!(drawn, expected);
}

#[test]
fn sample_bitmap_emits_exactly_the_lit_points_of_the_decoder() {
    let bitmap = RawBitmap::new(&SAMPLE, 4);
    let decoder = ImageRaw::<BinaryColor>::new(&SAMPLE, 4);
    let image = Image::new(&bitmap, Point::zero(), Rgb565::WHITE);
    let mut expected = Vec::new();
    for y in 0..16 {
        for x in 0..4 {
            if decoder.pixel(GraphicsPoint::new(x, y)) == Some(BinaryColor::On) {
                expected.push(Pixel(Point::new(x, y), Rgb565::WHITE));
            }
        }
    }
    assert_eq!(expected.len(), 32);
    assert_eq!(collect(&image), expected);
}

#[test]
fn alternating_bits_at_width_eight_in_black() {
    let bitmap = RawBitmap::new(&[0b10101010, 0b01010101], 8);
    let image = Image::new(&bitmap, Point::zero(), Rgb666::BLACK);
    assert_eq!(
        collect(&image),
        at(
            &[(0, 0), (2, 0), (4, 0), (6, 0), (1, 1), (3, 1), (5, 1), (7, 1)],
            Rgb666::BLACK
        )
    );
}

#[test]
fn alternating_bits_in_color_spaces_of_other_depths() {
    let bitmap = RawBitmap::new(&[0b10101010, 0b01010101], 8);
    let points = [(0, 0), (2, 0), (4, 0), (6, 0), (1, 1), (3, 1), (5, 1), (7, 1)];
    assert_eq!(
        collect(&Image::new(&bitmap, Point::zero(), BinaryColor::Off)),
        at(&points, BinaryColor::Off)
    );
    assert_eq!(
        collect(&Image::new(&bitmap, Point::zero(), Rgb565::BLACK)),
        at(&points, Rgb565::BLACK)
    );
    assert_eq!(
        collect(&Image::new(&bitmap, Point::zero(), Rgb888::BLACK)),
        at(&points, Rgb888::BLACK)
    );
}

#[test]
fn every_lit_point_is_emitted_and_no_other() {
    let source = Pattern::new(&["#..#", ".##.", "....", "####"], 4);
    let position = Point::new(-2, 30);
    let image = Image::new(&source, position, 5u8);
    let emitted = collect(&image);
    for y in 0..4 {
        for x in 0..4 {
            let local = Point::new(x, y);
            let pixel = Pixel(position.wrapping_add(local), 5u8);
            assert_eq!(emitted.contains(&pixel), source.pixel(local) == Some(true));
        }
    }
    assert_eq!(emitted.len(), 8);
}

#[test]
fn pixels_come_row_by_row_and_left_to_right() {
    let source = Pattern::new(&["..#", "#.#", "##."], 3);
    let image = Image::new(&source, Point::new(100, 200), 1u8);
    assert_eq!(
        collect(&image),
        at(&[(102, 200), (100, 201), (102, 201), (100, 202), (101, 202)], 1u8)
    );
}

#[test]
fn order_does_not_depend_on_the_pattern() {
    let patterns: [[&'static str; 3]; 4] = [
        ["###", "###", "###"],
        ["#.#", ".#.", "#.#"],
        ["..#", ".#.", "#.."],
        ["...", "...", "..#"],
    ];
    for rows in patterns {
        let source = Pattern::new(&rows, 3);
        let image = Image::new(&source, Point::zero(), 1u8);
        let emitted = collect(&image);
        for pair in emitted.windows(2) {
            let (a, b) = (pair[0].0, pair[1].0);
            assert!(a.y < b.y || (a.y == b.y && a.x < b.x));
        }
    }
}

#[test]
fn a_point_without_a_pixel_counts_as_unlit() {
    let source = Pattern::new(&["#?#", "?", "##"], 3);
    let image = Image::new(&source, Point::zero(), 1u8);
    assert_eq!(collect(&image), at(&[(0, 0), (2, 0), (0, 2), (1, 2)], 1u8));
    let mut drawn = Vec::new();
    assert!(image.draw(&mut drawn).is_ok());
    assert_eq!(drawn, at(&[(0, 0), (2, 0), (0, 2), (1, 2)], 1u8));
}

#[test]
fn an_unlit_image_emits_nothing() {
    let source = Pattern::new(&["....", "...."], 4);
    let image = Image::new(&source, Point::new(3, 3), 1u8);
    assert_eq!(collect(&image), Vec::new());
}

#[test]
fn a_zero_size_source_emits_nothing() {
    for (rows, width) in [(vec![], 0u32), (vec![], 5), (vec!["", "", ""], 0)] {
        let source = Pattern::new(&rows, width);
        for position in [Point::zero(), Point::new(-9, 9), Point::new(i32::MAX, i32::MIN)] {
            let image = Image::new(&source, position, Rgb565::GREEN);
            assert_eq!(collect(&image), Vec::new());
            let mut sink = Bounded::new(0);
            assert_eq!(image.draw(&mut sink), Ok(()));
            assert_eq!(sink.taken, Vec::new());
            let bounds = image.bounding_box();
            assert_eq!(bounds.top_left, position);
            assert!(bounds.size.width == 0 || bounds.size.height == 0);
        }
    }
}

#[test]
fn a_zero_width_bitmap_emits_nothing() {
    let bitmap = RawBitmap::new(&[0xFF, 0xFF], 0);
    let image = Image::new(&bitmap, Point::new(1, 1), 1u8);
    assert_eq!(collect(&image), Vec::new());
    assert_eq!(image.bounding_box().size, Size::new(0, 0));
}

#[test]
fn the_stream_stays_empty_once_it_has_ended() {
    let source = Pattern::new(&["#"], 1);
    let image = Image::new(&source, Point::zero(), 1u8);
    let mut pixels = image.pixels();
    assert_eq!(pixels.next(), Some(Pixel(Point::zero(), 1u8)));
    assert_eq!(pixels.next(), None);
    assert_eq!(pixels.next(), None);
}

#[test]
fn the_stream_can_be_started_again() {
    let source = Pattern::new(&["##"], 2);
    let image = Image::new(&source, Point::zero(), 1u8);
    let mut first = image.pixels();
    assert_eq!(first.next(), Some(Pixel(Point::new(0, 0), 1u8)));
    assert_eq!(collect(&image), at(&[(0, 0), (1, 0)], 1u8));
    assert_eq!(first.next(), Some(Pixel(Point::new(1, 0), 1u8)));
}

#[test]
fn position_is_added_to_every_point() {
    let source = Pattern::new(&["#.", ".#"], 2);
    let image = Image::new(&source, Point::new(-1, -1), 1u8);
    assert_eq!(collect(&image), at(&[(-1, -1), (0, 0)], 1u8));
}

#[test]
fn position_wraps_at_the_bounds_of_a_coordinate() {
    let source = Pattern::new(&["##"], 2);
    let image = Image::new(&source, Point::new(i32::MAX, 0), 1u8);
    assert_eq!(collect(&image), at(&[(i32::MAX, 0), (i32::MIN, 0)], 1u8));
}

#[test]
fn draw_hands_every_pixel_to_the_sink_in_one_call() {
    let source = Pattern::new(&["#.#", "###"], 3);
    let image = Image::new(&source, Point::new(1, 1), 7u8);
    let mut sink = Bounded::new(10);
    assert_eq!(image.draw(&mut sink), Ok(()));
    assert_eq!(sink.calls, 1);
    assert_eq!(sink.taken, collect(&image));
}

#[test]
fn draw_returns_the_failure_of_the_sink() {
    let source = Pattern::new(&["#.#", "###"], 3);
    let image = Image::new(&source, Point::zero(), 7u8);
    let mut sink = Bounded::new(3);
    assert_eq!(image.draw(&mut sink), Err(Full { at: 3 }));
    assert_eq!(sink.taken, at(&[(0, 0), (2, 0), (0, 1)], 7u8));
}

#[test]
fn draw_returns_the_failure_of_a_sink_that_takes_nothing() {
    let source = Pattern::new(&[], 0);
    let image = Image::new(&source, Point::zero(), 7u8);
    assert_eq!(image.draw(&mut Broken), Err("no surface"));
    let source = Pattern::new(&["#"], 1);
    let image = Image::new(&source, Point::zero(), 7u8);
    assert_eq!(image.draw(&mut Broken), Err("no surface"));
}

#[test]
fn draw_into_a_vector_appends() {
    let source = Pattern::new(&[".#"], 2);
    let image = Image::new(&source, Point::zero(), 7u8);
    let mut drawn = vec![Pixel(Point::new(9, 9), 0u8)];
    assert!(image.draw(&mut drawn).is_ok());
    assert!(image.translate(Point::new(0, 1)).draw(&mut drawn).is_ok());
    assert_eq!(
        drawn,
        vec![
            Pixel(Point::new(9, 9), 0u8),
            Pixel(Point::new(1, 0), 7u8),
            Pixel(Point::new(1, 1), 7u8),
        ]
    );
}

#[test]
fn draw_does_not_change_the_image() {
    let source = Pattern::new(&["##"], 2);
    let image = Image::new(&source, Point::new(4, 4), 7u8);
    let before = image.bounding_box();
    let mut drawn = Vec::new();
    assert!(image.draw(&mut drawn).is_ok());
    assert!(image.draw(&mut drawn).is_ok());
    assert_eq!(image.bounding_box(), before);
    assert_eq!(drawn, at(&[(4, 4), (5, 4), (4, 4), (5, 4)], 7u8));
}

#[test]
fn draw_onto_a_display_of_the_graphics_crate() {
    let bitmap = RawBitmap::new(&[0b1010_0000, 0b0110_0000, 0b1111_0000], 4);
    let image = Image::new(&bitmap, Point::new(1, 1), Rgb565::WHITE);
    let mut display: MockDisplay<Rgb565> = MockDisplay::new();
    assert!(image.draw(&mut Surface(&mut display)).is_ok());
    display.assert_pattern(&[
        "     ", //
        " W W ", //
        "  WW ", //
        " WWWW", //
    ]);
}

#[test]
fn the_same_bitmap_in_two_colors_at_two_positions() {
    let bitmap = RawBitmap::new(&[0b1100_0000, 0b0100_0000], 2);
    let red = Image::new(&bitmap, Point::zero(), Rgb565::RED);
    let blue = Image::new(&bitmap, Point::new(3, 0), Rgb565::BLUE);
    let mut display: MockDisplay<Rgb565> = MockDisplay::new();
    assert!(red.draw(&mut Surface(&mut display)).is_ok());
    assert!(blue.draw(&mut Surface(&mut display)).is_ok());
    display.assert_pattern(&[
        "RR BB", //
        " R  B", //
    ]);
}
