//! Color casting for binary images.
//!
//! An [`Image`] borrows a two-color bitmap, places it at a position and
//! projects every lit pixel into a caller-chosen color of any color space.
//! Unlit pixels are transparent: nothing is emitted for them.
//!
//! - [`geometry`]: points, sizes and rectangles on the pixel grid.
//! - [`source`]: what an image reads, and a bitmap of one bit per pixel.
//! - [`image`]: the image, its model and its operations.
//! - [`pixels`]: the pixels of an image, computed one at a time.
//! - [`sink`]: what an image draws into.
//! - [`laws`]: what holds of every image.

pub mod geometry;
pub mod image;
pub mod laws;
pub mod pixels;
pub mod sink;
pub mod source;

pub use image::Image;
