//! Encoder for uncompressed 32-bit BGRA images in the Truevision TGA format.
//!
//! An image is turned into a byte buffer made of a fixed-layout header
//! followed by the pixels, four bytes each, in the order they were given.
//! The layout is stated once, as a function on mathematical sequences, and
//! every executable function is proved against it.

pub mod header;
pub mod image;
pub mod pixel;

pub use image::BGRA;
pub use pixel::PixelBGRA;
