use ascii_art::error::ConvertError;
use ascii_art::font_loader::FontSettings;
use ascii_art::grid::Grid;

#[test]
fn font_settings_values() {
    let s = FontSettings::default();
    assert_eq!(s.font_size, 4);
    assert_eq!(s.font_path, "font.ttf");
    let s = FontSettings::new(12, "other.ttf");
    assert_eq!(s.font_size, 12);
    assert_eq!(s.font_path, "other.ttf");
}

#[test]
fn error_messages_describe_the_category() {
    assert_eq!(ConvertError::ImageError.message(), "Failed processing image");
    assert_eq!(ConvertError::FileError.message(), "Failed reading file");
    assert_eq!(
        ConvertError::NdArrayShapeError.message(),
        "Failed converting image to array with given shape or layout"
    );
    assert_eq!(ConvertError::InvalidFont.message(), "Failed reading font data");
}

#[test]
fn grid_from_parts_checks_the_shape() {
    let g = Grid::from_parts(2, 3, vec![1u8, 2, 3, 4, 5, 6]).unwrap();
    assert_eq!(g.get(0, 0), 1);
    assert_eq!(g.get(0, 2), 3);
    assert_eq!(g.get(1, 0), 4);
    assert!(matches!(
        Grid::from_parts(2, 3, vec![1u8, 2, 3]),
        Err(ConvertError::NdArrayShapeError)
    ));
}

#[test]
fn grid_set_at_changes_one_cell() {
    let mut g = Grid::new_fill(2, 2, 7u8);
    g.set_at(1, 0, 9);
    assert_eq!(g.get(0, 0), 7);
    assert_eq!(g.get(0, 1), 7);
    assert_eq!(g.get(1, 0), 9);
    assert_eq!(g.get(1, 1), 7);
}
