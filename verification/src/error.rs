//! Error kinds reported by the conversion pipeline.

use vstd::prelude::*;

verus! {

/// The categories of failure a conversion can report.
///
/// Every pipeline stage propagates the first error upward without retry; the
/// caller receives the category that failed and decides whether to abort or to
/// continue with other inputs.
#[derive(Clone, Copy, Debug, PartialEq, Eq, Structural)]
pub enum ConvertError {
    /// Decoding, encoding or processing of a raster image failed.
    ImageError,
    /// A file could not be read or written.
    FileError,
    /// A flat pixel buffer and a 2-D shape disagreed about their dimensions.
    NdArrayShapeError,
    /// A font failed to parse, after the fallback font was also tried.
    InvalidFont,
}

impl ConvertError {
    /// A human-readable description of the error category.
    pub fn message(&self) -> (r: &'static str)
        ensures
            *self == ConvertError::ImageError ==> r@ == "Failed processing image"@,
            *self == ConvertError::FileError ==> r@ == "Failed reading file"@,
            *self == ConvertError::NdArrayShapeError ==> r@
                == "Failed converting image to array with given shape or layout"@,
            *self == ConvertError::InvalidFont ==> r@ == "Failed reading font data"@,
    {
        match self {
            ConvertError::ImageError => "Failed processing image",
            ConvertError::FileError => "Failed reading file",
            ConvertError::NdArrayShapeError => {
                "Failed converting image to array with given shape or layout"
            },
            ConvertError::InvalidFont => "Failed reading font data",
        }
    }
}

} // verus!
