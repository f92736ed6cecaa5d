//! Converts a raster image into a grid of text characters that approximate the
//! source image's luminance and edge structure.
//!
//! The heart of the crate is the analysis pipeline: a configurable filter
//! chain, a luminance-to-character quantizer, a gradient-orientation edge
//! classifier, and a histogram-driven edge downscaler whose results are merged
//! into one character grid by the compositor. Image decoding, font loading and
//! text rasterization are external collaborators and live outside this crate.

pub mod char_set;
pub mod converter;
pub mod edge_detect;
pub mod edge_processor;
pub mod error;
pub mod font_loader;
pub mod grid;
pub mod processing;
pub mod quantizer;
