use sokoban::cell::Cell;

#[test]
fn every_cell_has_its_glyph() {
    assert_eq!(Cell::Wall.glyph(), '#');
    assert_eq!(Cell::Floor.glyph(), ' ');
    assert_eq!(Cell::Target.glyph(), '.');
    assert_eq!(Cell::Box.glyph(), '$');
    assert_eq!(Cell::BoxOnTarget.glyph(), '*');
    assert_eq!(Cell::Player.glyph(), '@');
    assert_eq!(Cell::PlayerOnTarget.glyph(), '+');
}

#[test]
fn glyphs_read_back_as_their_cells() {
    for cell in [
        Cell::Wall,
        Cell::Floor,
        Cell::Target,
        Cell::Box,
        Cell::BoxOnTarget,
        Cell::Player,
        Cell::PlayerOnTarget,
    ] {
        assert_eq!(Cell::from_glyph(cell.glyph()), Some(cell));
    }
}

#[test]
fn other_characters_are_no_cells() {
    assert_eq!(Cell::from_glyph('x'), None);
    assert_eq!(Cell::from_glyph('W'), None);
    assert_eq!(Cell::from_glyph('\n'), None);
}
