use ascii_art::char_set::CharacterSet;

#[test]
fn default_palettes() {
    let s = CharacterSet::default();
    assert_eq!(
        s.tile,
        vec![' ', '.', ',', '*', ':', 'c', 'o', 'P', 'O', '?', '%', '&', '@']
    );
    assert_eq!(s.edge, vec![' ', '_', '|', '/', '\\']);
    assert_eq!(s.get_tile_mapping_size(), 13);
    assert_eq!(s.get_edge_mapping_size(), 5);
}

#[test]
fn custom_tile_palette() {
    let tile = vec!['a', 'b', 'c'];
    let s = CharacterSet::new(&tile);
    assert_eq!(s.tile, vec!['a', 'b', 'c']);
    assert_eq!(s.edge, vec![' ', '_', '|', '/', '\\']);
    assert_eq!(s.get_tile_mapping_size(), 3);
}

#[test]
fn find_edge_char_index_positions() {
    let s = CharacterSet::default();
    assert_eq!(s.find_edge_char_index(&' '), Some(0));
    assert_eq!(s.find_edge_char_index(&'_'), Some(1));
    assert_eq!(s.find_edge_char_index(&'|'), Some(2));
    assert_eq!(s.find_edge_char_index(&'/'), Some(3));
    assert_eq!(s.find_edge_char_index(&'\\'), Some(4));
    assert_eq!(s.find_edge_char_index(&'x'), None);
}

#[test]
fn find_tile_char_index_positions() {
    let s = CharacterSet::default();
    assert_eq!(s.find_tile_char_index(&' '), Some(0));
    assert_eq!(s.find_tile_char_index(&'@'), Some(12));
    assert_eq!(s.find_tile_char_index(&'o'), Some(6));
    assert_eq!(s.find_tile_char_index(&'Z'), None);
}

#[test]
fn find_first_occurrence_wins() {
    let tile = vec!['a', 'b', 'a'];
    let s = CharacterSet::new(&tile);
    assert_eq!(s.find_tile_char_index(&'a'), Some(0));
}
