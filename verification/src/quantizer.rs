//! The luminance quantizer: maps an 8-bit intensity to a tile-palette index.
//!
//! A pixel value `v` stands for the normalized intensity `x = v / 255` in
//! `[0, 1]`; the quantizer picks glyph index `floor(x * (N - 1))` for a
//! palette of `N` glyphs, computed exactly as `(v * (N - 1)) / 255` in
//! integers. The extremes land exactly on the first and last glyph.

use vstd::prelude::*;

use vstd::arithmetic::div_mod::{lemma_div_is_ordered, lemma_div_multiples_vanish};
use vstd::arithmetic::mul::{lemma_mul_inequality, lemma_mul_nonnegative};

use crate::char_set::CharacterSet;
use crate::grid::lemma_grid_index;
use crate::grid::Grid;

verus! {

/// The glyph index chosen for intensity `v` out of 255 by a palette of `n`
/// glyphs: `floor((v / 255) * (n - 1))`.
pub open spec fn quant_index_spec(v: int, n: int) -> int {
    (v * (n - 1)) / 255
}

/// The quantizer never leaves the palette: the chosen index lies in `[0, n)`.
pub proof fn lemma_quant_index_range(v: int, n: int)
    requires
        0 <= v <= 255,
        1 <= n,
    ensures
        0 <= quant_index_spec(v, n) < n,
{
    lemma_mul_nonnegative(v, n - 1);
    lemma_div_is_ordered(0, v * (n - 1), 255);
    lemma_mul_inequality(v, 255, n - 1);
    lemma_div_is_ordered(v * (n - 1), 255 * (n - 1), 255);
    lemma_div_multiples_vanish(n - 1, 255);
    assert(255 * (n - 1) == (n - 1) * 255);
}

/// Quantizer monotonicity: a brighter pixel never gets an emptier glyph.
pub proof fn lemma_quant_index_monotonic(v1: int, v2: int, n: int)
    requires
        0 <= v1 <= v2 <= 255,
        1 <= n,
    ensures
        quant_index_spec(v1, n) <= quant_index_spec(v2, n),
{
    lemma_mul_inequality(v1, v2, n - 1);
    lemma_div_is_ordered(v1 * (n - 1), v2 * (n - 1), 255);
}

/// Quantizer boundaries: intensity 0 maps to the first glyph and intensity
/// 255 to the last, for every palette size.
pub proof fn lemma_quant_index_boundaries(n: int)
    requires
        1 <= n,
    ensures
        quant_index_spec(0, n) == 0,
        quant_index_spec(255, n) == n - 1,
{
    lemma_div_multiples_vanish(n - 1, 255);
    assert(255 * (n - 1) == (n - 1) * 255);
    assert(0 * (n - 1) == 0) by (nonlinear_arith);
}

/// Picks the palette index for one pixel.
pub fn quantize_index(value: u8, palette_len: u8) -> (i: u8)
    requires
        palette_len >= 1,
    ensures
        i == quant_index_spec(value as int, palette_len as int),
        i < palette_len,
{
    proof {
        lemma_quant_index_range(value as int, palette_len as int);
    }
    ((value as u32 * (palette_len - 1) as u32) / 255) as u8
}

/// Maps every pixel of a grayscale buffer to its tile glyph.
pub fn quantize_grid(buf: &Grid<u8>, chars: &CharacterSet) -> (g: Grid<char>)
    requires
        buf.wf(),
        chars.wf(),
    ensures
        g.wf(),
        g.rows == buf.rows,
        g.cols == buf.cols,
        forall|i: int, j: int|
            g.in_bounds(i, j) ==> #[trigger] g.at(i, j) == chars.tile[quant_index_spec(
                buf.at(i, j) as int,
                chars.tile.len() as int,
            )],
    {
    let n = chars.get_tile_mapping_size();
    let mut data: Vec<char> = Vec::new();
    let rows = buf.rows;
    let cols = buf.cols;
    let mut k: usize = 0;
    while k < buf.data.len()
        invariant
            buf.wf(),
            chars.wf(),
            n == chars.tile.len(),
            k <= buf.data.len(),
            data.len() == k,
            forall|m: int|
                0 <= m < k ==> data[m] == chars.tile[quant_index_spec(
                    buf.data[m] as int,
                    chars.tile.len() as int,
                )],
        decreases buf.data.len() - k,
    {
        let idx = quantize_index(buf.data[k], n);
        data.push(chars.tile[idx as usize]);
        k = k + 1;
    }
    let g = Grid { rows, cols, data };
    proof {
        assert forall|i: int, j: int| g.in_bounds(i, j) implies #[trigger] g.at(i, j)
            == chars.tile[quant_index_spec(buf.at(i, j) as int, chars.tile.len() as int)] by {
            lemma_grid_index(rows as int, cols as int, i, j);
        }
    }
    g
}

} // verus!
