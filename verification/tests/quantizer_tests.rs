use ascii_art::char_set::CharacterSet;
use ascii_art::grid::Grid;
use ascii_art::quantizer::{quantize_grid, quantize_index};

#[test]
fn boundaries_map_to_first_and_last_glyph() {
    for n in 1..=255u8 {
        assert_eq!(quantize_index(0, n), 0);
        assert_eq!(quantize_index(255, n), n - 1);
    }
}

#[test]
fn exact_values_for_default_palette_size() {
    // 13 glyphs: index = floor(v * 12 / 255)
    assert_eq!(quantize_index(128, 13), 6);
    assert_eq!(quantize_index(1, 13), 0);
    assert_eq!(quantize_index(22, 13), 1);
    assert_eq!(quantize_index(254, 13), 11);
}

#[test]
fn monotonic_over_all_intensities() {
    for n in [1u8, 2, 5, 13, 255] {
        let mut prev = 0u8;
        for v in 0..=255u8 {
            let i = quantize_index(v, n);
            assert!(i >= prev, "palette {} darkened from {} at {}", n, prev, v);
            assert!(i < n);
            prev = i;
        }
    }
}

#[test]
fn quantize_grid_picks_tile_glyphs() {
    let chars = CharacterSet::default();
    let buf = Grid::from_parts(2, 2, vec![0u8, 128, 255, 64]).unwrap();
    let g = quantize_grid(&buf, &chars);
    assert_eq!(g.rows, 2);
    assert_eq!(g.cols, 2);
    // indices floor(v * 12 / 255): 0, 6, 12, 3
    assert_eq!(g.data, vec![' ', 'o', '@', '*']);
}
