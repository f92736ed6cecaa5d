//! Configuration for the font used when the character grid is re-rendered.
//!
//! Loading the font file and rasterizing glyphs are the renderer's business
//! and happen outside this crate; only the settings — the pixel size of one
//! output cell and the path of the font file — are data of the library.

use vstd::prelude::*;

verus! {

/// Cell pixel size and font file path, constructed once per conversion and
/// read-only afterward.
#[derive(Debug, Clone)]
pub struct FontSettings {
    pub font_size: u32,
    pub font_path: String,
}

impl FontSettings {
    /// Settings with a caller-chosen cell size and font path.
    pub fn new(font_size: u32, font_path: &str) -> (s: FontSettings)
        ensures
            s.font_size == font_size,
            s.font_path@ == font_path@,
    {
        FontSettings { font_size, font_path: font_path.to_string() }
    }

    /// The built-in settings: the smallest cell size that renders the default
    /// palette legibly, and the bundled font path.
    pub fn default() -> (s: FontSettings)
        ensures
            s.font_size == 4,
            s.font_path@ == "font.ttf"@,
    {
        FontSettings { font_size: 4, font_path: "font.ttf".to_string() }
    }
}

/// Namespace for font loading; the loading itself reads the file system and
/// parses font data, so it lives with the renderer outside this crate. On a
/// parse failure the loader retries once with the bundled font before giving
/// up.
pub struct FontLoader {}

} // verus!
