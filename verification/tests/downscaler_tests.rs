use ascii_art::edge_processor::EdgeDownscaler;
use ascii_art::grid::Grid;

/// Four 4x4 blocks in an 8x8 buffer, each with a clear majority class.
fn quadrant_buffer() -> Grid<u8> {
    let mut data = vec![0u8; 64];
    // top-left block: all none (mode 0)
    // top-right block (cols 4..8): ten 1s, rest 0 (mode 1)
    let mut ones = 0;
    for r in 0..4 {
        for c in 4..8 {
            if ones < 10 {
                data[r * 8 + c] = 1;
                ones += 1;
            }
        }
    }
    // bottom-left block (rows 4..8, cols 0..4): all 3 (mode 3)
    for r in 4..8 {
        for c in 0..4 {
            data[r * 8 + c] = 3;
        }
    }
    // bottom-right block: alternating 2 and 4, 2 first (mode 2 by tie-break)
    for r in 4..8 {
        for c in 4..8 {
            data[r * 8 + c] = if (r * 8 + c) % 2 == 0 { 2 } else { 4 };
        }
    }
    Grid::from_parts(8, 8, data).unwrap()
}

#[test]
fn zero_threshold_always_takes_the_mode() {
    let buf = quadrant_buffer();
    let out = EdgeDownscaler::hist_downscale(&buf, 4, 0, 1, (2, 2));
    assert_eq!(out.rows, 2);
    assert_eq!(out.cols, 2);
    assert_eq!(out.get(0, 0), 0); // the block's mode literally is "none"
    assert_eq!(out.get(0, 1), 1);
    assert_eq!(out.get(1, 0), 3);
    assert_eq!(out.get(1, 1), 2);
}

#[test]
fn full_threshold_blanks_blocks_larger_than_five() {
    // With ratio 1 a block of 16 pixels would need 16 distinct classes; only
    // five exist, so every cell stays at none.
    let buf = quadrant_buffer();
    let out = EdgeDownscaler::hist_downscale(&buf, 4, 1, 1, (2, 2));
    for r in 0..2 {
        for c in 0..2 {
            assert_eq!(out.get(r, c), 0);
        }
    }
}

#[test]
fn tie_breaks_by_first_class_to_reach_the_count() {
    // [1, 2, 2, 1]: class 2 reaches count 2 first.
    let buf = Grid::from_parts(2, 2, vec![1u8, 2, 2, 1]).unwrap();
    let out = EdgeDownscaler::hist_downscale(&buf, 2, 0, 1, (1, 1));
    assert_eq!(out.get(0, 0), 2);
    // [1, 2, 1, 2]: class 1 reaches count 2 first.
    let buf = Grid::from_parts(2, 2, vec![1u8, 2, 1, 2]).unwrap();
    let out = EdgeDownscaler::hist_downscale(&buf, 2, 0, 1, (1, 1));
    assert_eq!(out.get(0, 0), 1);
}

#[test]
fn gate_compares_the_exact_fraction() {
    // Block [1, 1, 2, 0]: three distinct classes out of four pixels.
    let buf = Grid::from_parts(2, 2, vec![1u8, 1, 2, 0]).unwrap();
    // density 3/4 >= 3/4: passes, mode is 1
    let out = EdgeDownscaler::hist_downscale(&buf, 2, 3, 4, (1, 1));
    assert_eq!(out.get(0, 0), 1);
    // density 3/4 < 4/5: fails, cell stays none
    let out = EdgeDownscaler::hist_downscale(&buf, 2, 4, 5, (1, 1));
    assert_eq!(out.get(0, 0), 0);
}

#[test]
fn distinct_classes_gate_not_edge_pixel_count() {
    // A block dominated by "none" but with four distinct classes present
    // passes a gate that a two-class block fails.
    let busy = Grid::from_parts(2, 2, vec![0u8, 1, 2, 3]).unwrap();
    let out = EdgeDownscaler::hist_downscale(&busy, 2, 1, 1, (1, 1));
    assert_eq!(out.get(0, 0), 0); // 4 distinct classes pass 4/4; mode is the first seen
    let plain = Grid::from_parts(2, 2, vec![1u8, 1, 1, 1]).unwrap();
    let out = EdgeDownscaler::hist_downscale(&plain, 2, 1, 2, (1, 1));
    assert_eq!(out.get(0, 0), 0); // 1 distinct class fails 1/4 >= 1/2
}
