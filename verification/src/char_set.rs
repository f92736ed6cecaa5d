//! Ordered palettes of candidate characters.

use vstd::prelude::*;

verus! {

/// Ordered palettes of candidate output characters.
///
/// `tile` is ordered from the emptiest to the densest glyph, so a quantization
/// index correlates with brightness. `edge` always holds exactly five glyphs,
/// one per edge class — none, horizontal, vertical, diagonal rising and
/// diagonal falling — and its first entry is the blank "no edge" marker.
#[derive(Clone, Debug)]
pub struct CharacterSet {
    pub tile: Vec<char>,
    pub edge: Vec<char>,
}

impl CharacterSet {
    /// The palette invariant: a non-empty tile palette small enough to index
    /// with a `u8`, and the fixed five-glyph edge palette led by the blank
    /// marker.
    pub open spec fn wf(&self) -> bool {
        &&& 1 <= self.tile.len() <= 255
        &&& self.edge.len() == 5
        &&& self.edge[0] == ' '
    }

    /// The fixed edge palette: blank, horizontal, vertical and the two
    /// diagonal line glyphs.
    pub open spec fn default_edge_seq() -> Seq<char> {
        seq![' ', '_', '|', '/', '\\']
    }

    /// The built-in tile palette, ordered from emptiest to densest glyph.
    pub open spec fn default_tile_seq() -> Seq<char> {
        seq![' ', '.', ',', '*', ':', 'c', 'o', 'P', 'O', '?', '%', '&', '@']
    }

    /// The built-in palettes.
    pub fn default() -> (s: CharacterSet)
        ensures
            s.wf(),
            s.tile@ == CharacterSet::default_tile_seq(),
            s.edge@ == CharacterSet::default_edge_seq(),
    {
        let s = CharacterSet {
            tile: vec![' ', '.', ',', '*', ':', 'c', 'o', 'P', 'O', '?', '%', '&', '@'],
            edge: vec![' ', '_', '|', '/', '\\'],
        };
        proof {
            assert(s.tile@ =~= CharacterSet::default_tile_seq());
            assert(s.edge@ =~= CharacterSet::default_edge_seq());
        }
        s
    }

    /// A palette with caller-chosen tile glyphs and the fixed edge glyphs.
    pub fn new(tile: &Vec<char>) -> (s: CharacterSet)
        requires
            1 <= tile.len() <= 255,
        ensures
            s.wf(),
            s.tile@ == tile@,
            s.edge@ == CharacterSet::default_edge_seq(),
    {
        let s = CharacterSet { tile: tile.clone(), edge: vec![' ', '_', '|', '/', '\\'] };
        proof {
            assert(s.edge@ =~= CharacterSet::default_edge_seq());
        }
        s
    }

    /// The number of tile glyphs.
    pub fn get_tile_mapping_size(&self) -> (n: u8)
        requires
            self.wf(),
        ensures
            n == self.tile.len(),
    {
        self.tile.len() as u8
    }

    /// The number of edge glyphs, which is always five.
    pub fn get_edge_mapping_size(&self) -> (n: u8)
        requires
            self.wf(),
        ensures
            n == self.edge.len(),
            n == 5,
    {
        self.edge.len() as u8
    }

    /// The position of the first edge glyph equal to `character`, if any.
    pub fn find_edge_char_index(&self, character: &char) -> (r: Option<usize>)
        ensures
            match r {
                Some(i) => {
                    &&& i < self.edge.len()
                    &&& self.edge[i as int] == *character
                    &&& forall|j: int| 0 <= j < i ==> self.edge[j] != *character
                },
                None => forall|j: int| 0 <= j < self.edge.len() ==> self.edge[j] != *character,
            },
    {
        find_char_index(&self.edge, character)
    }

    /// The position of the first tile glyph equal to `character`, if any.
    pub fn find_tile_char_index(&self, character: &char) -> (r: Option<usize>)
        ensures
            match r {
                Some(i) => {
                    &&& i < self.tile.len()
                    &&& self.tile[i as int] == *character
                    &&& forall|j: int| 0 <= j < i ==> self.tile[j] != *character
                },
                None => forall|j: int| 0 <= j < self.tile.len() ==> self.tile[j] != *character,
            },
    {
        find_char_index(&self.tile, character)
    }
}

/// The position of the first occurrence of `character` in `chars`, if any.
fn find_char_index(chars: &Vec<char>, character: &char) -> (r: Option<usize>)
    ensures
        match r {
            Some(i) => {
                &&& i < chars.len()
                &&& chars[i as int] == *character
                &&& forall|j: int| 0 <= j < i ==> chars[j] != *character
            },
            None => forall|j: int| 0 <= j < chars.len() ==> chars[j] != *character,
        },
{
    let mut k: usize = 0;
    while k < chars.len()
        invariant
            k <= chars.len(),
            forall|j: int| 0 <= j < k ==> chars[j] != *character,
        decreases chars.len() - k,
    {
        if chars[k] == *character {
            return Some(k);
        }
        k = k + 1;
    }
    None
}

} // verus!
