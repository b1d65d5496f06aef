//! The seven states a board cell can be in, and their glyphs.

use vstd::prelude::*;

verus! {

/// One cell of the board. A target under a box or under the player is part
/// of the cell's state.
#[derive(Clone, Copy, Debug, PartialEq, Eq, Structural)]
pub enum Cell {
    Wall,
    Floor,
    Target,
    Box,
    BoxOnTarget,
    Player,
    PlayerOnTarget,
}

impl Cell {
    /// The player stands on this cell.
    pub open spec fn holds_player(self) -> bool {
        self == Cell::Player || self == Cell::PlayerOnTarget
    }

    /// A box stands on this cell.
    pub open spec fn holds_box(self) -> bool {
        self == Cell::Box || self == Cell::BoxOnTarget
    }

    /// Nothing stands on this cell and it is no wall.
    pub open spec fn is_free(self) -> bool {
        self == Cell::Floor || self == Cell::Target
    }

    /// The ground of this cell is a target.
    pub open spec fn on_target(self) -> bool {
        self == Cell::Target || self == Cell::BoxOnTarget || self == Cell::PlayerOnTarget
    }

    /// This cell once the player has stepped onto it.
    pub open spec fn with_player(self) -> Cell {
        if self.on_target() {
            Cell::PlayerOnTarget
        } else {
            Cell::Player
        }
    }

    /// This cell once a box has been pushed onto it.
    pub open spec fn with_box(self) -> Cell {
        if self.on_target() {
            Cell::BoxOnTarget
        } else {
            Cell::Box
        }
    }

    /// This cell once the player has left it: its bare ground. A cell
    /// that does not hold the player stays as it is.
    pub open spec fn vacated(self) -> Cell {
        match self {
            Cell::Player => Cell::Floor,
            Cell::PlayerOnTarget => Cell::Target,
            other => other,
        }
    }

    /// The character that stands for this cell in level text.
    pub open spec fn spec_glyph(self) -> char {
        match self {
            Cell::Wall => '#',
            Cell::Floor => ' ',
            Cell::Target => '.',
            Cell::Box => '$',
            Cell::BoxOnTarget => '*',
            Cell::Player => '@',
            Cell::PlayerOnTarget => '+',
        }
    }

    /// The cell that a character of level text stands for, if any.
    pub open spec fn spec_from_glyph(c: char) -> Option<Cell> {
        if c == '#' {
            Some(Cell::Wall)
        } else if c == ' ' {
            Some(Cell::Floor)
        } else if c == '.' {
            Some(Cell::Target)
        } else if c == '$' {
            Some(Cell::Box)
        } else if c == '*' {
            Some(Cell::BoxOnTarget)
        } else if c == '@' {
            Some(Cell::Player)
        } else if c == '+' {
            Some(Cell::PlayerOnTarget)
        } else {
            None
        }
    }

    #[verifier::when_used_as_spec(spec_glyph)]
    pub fn glyph(self) -> (c: char)
        ensures
            c == self.spec_glyph(),
    {
        match self {
            Cell::Wall => '#',
            Cell::Floor => ' ',
            Cell::Target => '.',
            Cell::Box => '$',
            Cell::BoxOnTarget => '*',
            Cell::Player => '@',
            Cell::PlayerOnTarget => '+',
        }
    }

    #[verifier::when_used_as_spec(spec_from_glyph)]
    pub fn from_glyph(c: char) -> (cell: Option<Cell>)
        ensures
            cell == Cell::spec_from_glyph(c),
    {
        if c == '#' {
            Some(Cell::Wall)
        } else if c == ' ' {
            Some(Cell::Floor)
        } else if c == '.' {
            Some(Cell::Target)
        } else if c == '$' {
            Some(Cell::Box)
        } else if c == '*' {
            Some(Cell::BoxOnTarget)
        } else if c == '@' {
            Some(Cell::Player)
        } else if c == '+' {
            Some(Cell::PlayerOnTarget)
        } else {
            None
        }
    }

    /// Reading a cell's glyph gives the cell back, and a character that
    /// reads as a cell is that cell's glyph.
    pub proof fn lemma_glyph_round_trip(cell: Cell, c: char)
        ensures
            Cell::spec_from_glyph(cell.spec_glyph()) == Some(cell),
            Cell::spec_from_glyph(c) == Some(cell) ==> cell.spec_glyph() == c,
    {
    }
}

} // verus!
