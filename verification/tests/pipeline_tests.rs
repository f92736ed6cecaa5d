use ascii_art::char_set::CharacterSet;
use ascii_art::converter::convert_grids;
use ascii_art::edge_detect::{classify_grid, Sobel};
use ascii_art::grid::Grid;
use ascii_art::processing::default_tile_chain;

use image::imageops::FilterType;
use image::{DynamicImage, GrayImage, Luma};

fn angle_micro(gx: i16, gy: i16) -> u32 {
    let theta = (gy as f32).atan2(gx as f32);
    let norm = theta / std::f32::consts::PI * 0.5 + 0.5;
    ((norm * 1_000_000.0).round() as u32).min(1_000_000)
}

fn gray_to_grid(img: &GrayImage) -> Grid<u8> {
    let (w, h) = img.dimensions();
    Grid::from_parts(h as usize, w as usize, img.as_raw().clone()).unwrap()
}

#[test]
fn round_trip_solid_gray_image_is_uniform() {
    // A solid 16x16 gray image, cell size 4, empty filter chain: the tile
    // grid is 4x4 with the single glyph for 128/255 and the edge grid is all
    // none, so the final grid is uniform.
    let cell = 4u32;
    let img = GrayImage::from_pixel(16, 16, Luma([128u8]));
    let dynimg = DynamicImage::ImageLuma8(img);
    let resized = dynimg
        .resize_exact(16 / cell, 16 / cell, FilterType::Triangle)
        .to_luma8();
    let tile_buf = gray_to_grid(&resized);
    assert!(default_tile_chain().is_empty(), "no transform touches the tile path");
    assert_eq!(tile_buf.rows, 4);
    assert_eq!(tile_buf.cols, 4);
    assert!(tile_buf.data.iter().all(|&v| v == 128));

    let full = gray_to_grid(&dynimg.to_luma8());
    let (gx, gy) = Sobel::new().gradients(&full);
    let mut angles = Vec::new();
    for k in 0..gx.data.len() {
        angles.push(angle_micro(gx.data[k], gy.data[k]));
    }
    let angle_grid = Grid::from_parts(16, 16, angles).unwrap();
    let classes = classify_grid(&angle_grid);
    assert!(classes.data.iter().all(|&c| c == 0), "zero gradient everywhere");

    let chars = CharacterSet::default();
    let out = convert_grids(&tile_buf, &classes, &chars, cell as usize, 0, 1);
    assert_eq!(out.rows, 4);
    assert_eq!(out.cols, 4);
    // floor((128 / 255) * 12) = 6 -> 'o'
    assert!(out.data.iter().all(|&ch| ch == 'o'));
}

#[test]
fn pipeline_shows_edge_glyphs_where_edges_are() {
    // One cell of a 2x2 output covers a block full of vertical classes; the
    // other three are quiet. Only that cell shows the vertical glyph.
    let chars = CharacterSet::default();
    let tile_buf = Grid::from_parts(2, 2, vec![255u8, 255, 255, 255]).unwrap();
    let mut classes = vec![0u8; 16];
    for r in 0..2 {
        for c in 0..2 {
            classes[r * 4 + c] = 2; // top-left 2x2 block all vertical
        }
    }
    let class_grid = Grid::from_parts(4, 4, classes).unwrap();
    let out = convert_grids(&tile_buf, &class_grid, &chars, 2, 0, 1);
    assert_eq!(out.data, vec!['|', '@', '@', '@']);
}
