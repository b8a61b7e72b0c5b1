//! Batch image resizing and format conversion.
//!
//! The library holds the tool's logic: parsing a `HEIGHTxWIDTH` target size,
//! deriving output paths, classifying per-file outcomes, accumulating a batch
//! failure report, and deciding the cleanup of originals after an in-place
//! conversion. Decoding, resampling and encoding are supplied by an image
//! codec crate behind a small set of trusted wrappers.

pub mod batch;
pub mod codec;
pub mod confirm;
pub mod dimension;
pub mod folder;
pub mod format;
pub mod outcome;
pub mod ops;
pub mod paths;
pub mod report;
pub mod text;
