//! Removal of privacy-sensitive metadata from JPEG and PNG images, and a
//! categorised listing of the EXIF tags an image carries.
//!
//! Container parsing and re-encoding are done by `img-parts`, EXIF decoding
//! by `kamadak-exif` and JSON rendering by `serde_json`; the decisions about
//! what is metadata, what is kept, in which order, and how each outcome is
//! reported are verified here.
pub mod image_format;
pub mod exif_tags;
pub mod jpeg;
pub mod png;
pub mod seq_filter;

pub use image_format::ImageFormatError;
pub use jpeg::strip_jpeg_inner;
pub use png::strip_png_inner;
pub use exif_tags::{categorise, read_exif_tags_inner};
