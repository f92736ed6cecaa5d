//! The compositor and the assembled analysis pipeline.
//!
//! The compositor merges the tile grid with the downscaled edge grid: where
//! the edge class is "none" the cell shows its luminance glyph, everywhere
//! else the edge glyph wins. [`convert_grids`] chains the quantizer, the edge
//! downscaler and the compositor into the character grid a renderer draws.

use vstd::prelude::*;

use crate::char_set::CharacterSet;
use crate::edge_detect::class_values_ok;
use crate::edge_processor::{block_seq, cell_value_spec, EdgeDownscaler};
use crate::grid::lemma_grid_index;
use crate::grid::Grid;
use crate::quantizer::{quant_index_spec, quantize_grid};

verus! {

/// The tile glyph chosen for luminance `v` by the palette.
pub open spec fn tile_char_spec(chars: CharacterSet, v: u8) -> char {
    chars.tile[quant_index_spec(v as int, chars.tile.len() as int)]
}

/// The character one cell finally shows: its tile glyph when the cell's edge
/// class is "none", otherwise the glyph of that edge class.
pub open spec fn final_char_spec(chars: CharacterSet, tile_v: u8, cls: u8) -> char {
    if cls == 0 {
        tile_char_spec(chars, tile_v)
    } else {
        chars.edge[cls as int]
    }
}

/// Merges the tile glyph grid and the per-cell edge classes; the edge glyph
/// wins wherever an edge is present. Each cell is decided independently.
pub fn composite(tiles: &Grid<char>, cell_classes: &Grid<u8>, chars: &CharacterSet) -> (r: Grid<
    char,
>)
    requires
        tiles.wf(),
        cell_classes.wf(),
        chars.wf(),
        tiles.rows == cell_classes.rows,
        tiles.cols == cell_classes.cols,
        class_values_ok(*cell_classes),
    ensures
        r.wf(),
        r.rows == tiles.rows,
        r.cols == tiles.cols,
        forall|k: int|
            0 <= k < r.data.len() ==> r.data[k] == (if cell_classes.data[k] == 0 {
                tiles.data[k]
            } else {
                chars.edge[cell_classes.data[k] as int]
            }),
        forall|i: int, j: int|
            r.in_bounds(i, j) ==> #[trigger] r.at(i, j) == (if cell_classes.at(i, j) == 0 {
                tiles.at(i, j)
            } else {
                chars.edge[cell_classes.at(i, j) as int]
            }),
{
    let mut data: Vec<char> = Vec::new();
    let mut k: usize = 0;
    while k < tiles.data.len()
        invariant
            tiles.wf(),
            cell_classes.wf(),
            chars.wf(),
            tiles.rows == cell_classes.rows,
            tiles.cols == cell_classes.cols,
            class_values_ok(*cell_classes),
            k <= tiles.data.len(),
            data.len() == k,
            forall|m: int|
                0 <= m < k ==> data[m] == (if cell_classes.data[m] == 0 {
                    tiles.data[m]
                } else {
                    chars.edge[cell_classes.data[m] as int]
                }),
        decreases tiles.data.len() - k,
    {
        let cls = cell_classes.data[k];
        if cls == 0 {
            data.push(tiles.data[k]);
        } else {
            data.push(chars.edge[cls as usize]);
        }
        k = k + 1;
    }
    let r = Grid { rows: tiles.rows, cols: tiles.cols, data };
    proof {
        assert forall|i: int, j: int| r.in_bounds(i, j) implies #[trigger] r.at(i, j) == (
        if cell_classes.at(i, j) == 0 {
            tiles.at(i, j)
        } else {
            chars.edge[cell_classes.at(i, j) as int]
        }) by {
            lemma_grid_index(r.rows as int, r.cols as int, i, j);
        }
    }
    r
}

/// Runs the analysis pipeline on prepared buffers: quantizes the cell-sized
/// luminance buffer into tile glyphs, downscales the per-pixel edge classes
/// by gated majority vote, and composites the two grids — edges winning —
/// into the final character grid.
///
/// `tile_buf` holds one luminance value per output cell; `pixel_classes`
/// holds one edge class per source pixel and must cover `tile_size` source
/// pixels per cell in each direction.
pub fn convert_grids(
    tile_buf: &Grid<u8>,
    pixel_classes: &Grid<u8>,
    chars: &CharacterSet,
    tile_size: usize,
    thres_num: u32,
    thres_den: u32,
) -> (r: Grid<char>)
    requires
        tile_buf.wf(),
        pixel_classes.wf(),
        chars.wf(),
        class_values_ok(*pixel_classes),
        1 <= tile_size <= u32::MAX,
        1 <= thres_den,
        thres_num <= thres_den,
        tile_buf.rows * tile_size <= pixel_classes.rows,
        tile_buf.cols * tile_size <= pixel_classes.cols,
        tile_size * tile_size <= usize::MAX,
    ensures
        r.wf(),
        r.rows == tile_buf.rows,
        r.cols == tile_buf.cols,
        forall|i: int, j: int|
            r.in_bounds(i, j) ==> #[trigger] r.at(i, j) == final_char_spec(
                *chars,
                tile_buf.at(i, j),
                cell_value_spec(
                    block_seq(*pixel_classes, i, j, tile_size as int),
                    thres_num as int,
                    thres_den as int,
                    tile_size as int,
                ),
            ),
{
    let tiles = quantize_grid(tile_buf, chars);
    let cells = EdgeDownscaler::hist_downscale(
        pixel_classes,
        tile_size,
        thres_num,
        thres_den,
        (tile_buf.rows, tile_buf.cols),
    );
    composite(&tiles, &cells, chars)
}

} // verus!
