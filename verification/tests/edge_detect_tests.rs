use ascii_art::edge_detect::{classify_angle, classify_grid, Sobel};
use ascii_art::grid::Grid;
use ascii_art::processing::{DoG, MedianBlur, SharpenGaussian, Threshold};

use image::GrayImage;
use imageproc::filter::gaussian_blur_f32;

/// The five bucket ranges, written down independently from the table:
/// none, horizontal, vertical, diagonal-one, diagonal-two.
fn bucket_membership(t: u32) -> [bool; 5] {
    let none = t == 500_000;
    let vertical = (950_000..=1_000_000).contains(&t);
    let horizontal = (250_000..270_000).contains(&t) || (750_000..770_000).contains(&t);
    let excluded = none || vertical || horizontal;
    let diag_one = (t < 280_000 || (550_000..780_000).contains(&t)) && !excluded;
    let diag_two = ((280_000..550_000).contains(&t) || (780_000..1_000_000).contains(&t)) && !excluded;
    [none, horizontal, vertical, diag_one, diag_two]
}

#[test]
fn bucket_partition_over_uniform_samples() {
    // 10,001 evenly spaced samples of theta_norm across [0, 1].
    for k in 0..=10_000u32 {
        let t = k * 100;
        let members = bucket_membership(t);
        let hits = members.iter().filter(|&&m| m).count();
        assert_eq!(hits, 1, "theta_norm micro {} fell in {} buckets", t, hits);
        let class = classify_angle(t);
        let expected = [0u8, 1, 2, 3, 4][members.iter().position(|&m| m).unwrap()];
        assert_eq!(class, expected, "theta_norm micro {}", t);
    }
}

#[test]
fn classify_known_angles() {
    assert_eq!(classify_angle(500_000), 0);
    assert_eq!(classify_angle(950_000), 2);
    assert_eq!(classify_angle(1_000_000), 2);
    assert_eq!(classify_angle(250_000), 1);
    assert_eq!(classify_angle(269_999), 1);
    assert_eq!(classify_angle(760_000), 1);
    assert_eq!(classify_angle(0), 3);
    assert_eq!(classify_angle(600_000), 3);
    assert_eq!(classify_angle(270_000), 3);
    assert_eq!(classify_angle(280_000), 4);
    assert_eq!(classify_angle(499_999), 4);
    assert_eq!(classify_angle(800_000), 4);
    assert_eq!(classify_angle(949_999), 4);
}

fn blur(grid: &Grid<u8>, sigma_milli: u32) -> Grid<u8> {
    let img = GrayImage::from_raw(grid.cols as u32, grid.rows as u32, grid.data.clone()).unwrap();
    let blurred = gaussian_blur_f32(&img, sigma_milli as f32 / 1000.0);
    Grid::from_parts(grid.rows, grid.cols, blurred.into_raw()).unwrap()
}

fn angle_micro(gx: i16, gy: i16) -> u32 {
    let theta = (gy as f32).atan2(gx as f32);
    let norm = theta / std::f32::consts::PI * 0.5 + 0.5;
    let micro = (norm * 1_000_000.0).round() as u32;
    micro.min(1_000_000)
}

#[test]
fn gradient_scenario_hard_vertical_edge() {
    // A single hard vertical edge: bright left half, dark right half. The
    // gradient at the boundary points in the negative x direction, so
    // theta_norm lands exactly at 1.0 and the boundary columns classify as
    // vertical; everywhere else the gradient vanishes and the class is none.
    let rows = 16usize;
    let cols = 16usize;
    let mut data = Vec::new();
    for _r in 0..rows {
        for c in 0..cols {
            data.push(if c < 8 { 255u8 } else { 0u8 });
        }
    }
    let img = Grid::from_parts(rows, cols, data).unwrap();
    let (gx, gy) = Sobel::new().gradients(&img);
    let mut angles = Vec::new();
    for k in 0..gx.data.len() {
        angles.push(angle_micro(gx.data[k], gy.data[k]));
    }
    let angle_grid = Grid::from_parts(rows, cols, angles).unwrap();
    let classes = classify_grid(&angle_grid);
    for r in 0..rows {
        for c in 0..cols {
            let cls = classes.get(r, c);
            if c == 7 || c == 8 {
                assert_eq!(cls, 2, "row {} col {} should be vertical", r, c);
            } else {
                assert_eq!(cls, 0, "row {} col {} should be none", r, c);
            }
        }
    }
}

#[test]
fn gradient_scenario_through_the_default_edge_chain() {
    // The same hard vertical edge with dark left and bright right, run
    // through the default edge preprocessing: unsharp masking keeps the
    // step, the difference of Gaussians turns it into a bright band ending
    // at the boundary, and after median smoothing and thresholding the
    // band's falling flank points its gradient in the negative x direction.
    // Some column along the boundary is then classified vertical in every
    // row.
    let rows = 16usize;
    let cols = 32usize;
    let mut data = Vec::new();
    for _r in 0..rows {
        for c in 0..cols {
            data.push(if c < 16 { 0u8 } else { 255u8 });
        }
    }
    let mut buf = Grid::from_parts(rows, cols, data).unwrap();

    let sg = SharpenGaussian::default();
    buf = sg.combine(&buf, &blur(&buf, sg.sigma_milli)).unwrap();
    let dog = DoG::default();
    buf = dog
        .combine(&blur(&buf, dog.sigma_1_milli), &blur(&buf, dog.sigma_2_milli))
        .unwrap();
    buf = MedianBlur::default().apply(&buf);
    buf = Threshold::default().apply(&buf);

    let (gx, gy) = Sobel::new().gradients(&buf);
    let mut angles = Vec::new();
    for k in 0..gx.data.len() {
        angles.push(angle_micro(gx.data[k], gy.data[k]));
    }
    let angle_grid = Grid::from_parts(rows, cols, angles).unwrap();
    let classes = classify_grid(&angle_grid);

    let vertical_column = (12..20).find(|&c| (0..rows).all(|r| classes.get(r, c) == 2));
    assert!(
        vertical_column.is_some(),
        "no all-vertical column near the boundary: {:?}",
        (12..20)
            .map(|c| (0..rows).map(|r| classes.get(r, c)).collect::<Vec<_>>())
            .collect::<Vec<_>>()
    );
}
