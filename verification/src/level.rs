//! The catalogue of levels: for each level the board it starts from and
//! the cell where the player starts.

use vstd::prelude::*;
use crate::cell::Cell;
use crate::cell::Cell::{
    Box as B, BoxOnTarget as G, Floor as F, Player as P, Target as T, Wall as W,
};
use crate::grid::{no_box_left, sole_player_at, Grid, Position};

verus! {

/// The levels of the game.
#[derive(Clone, Copy, Debug, PartialEq, Eq, Hash, Structural)]
pub enum Level {
    One,
    Two,
    Three,
    Four,
    Five,
}

/// The board of level one: `W` wall, `F` floor, `T` target, `B` box, `G` box on a
/// target, `P` player.
pub open spec fn level_one_grid() -> Seq<Seq<Cell>> {
    seq![
        seq![W, W, W, W, W],
        seq![W, F, F, F, W],
        seq![W, T, B, P, W],
        seq![W, F, F, F, W],
        seq![W, W, W, W, W],
    ]
}

/// The board of level two: `W` wall, `F` floor, `T` target, `B` box, `G` box on a
/// target, `P` player.
pub open spec fn level_two_grid() -> Seq<Seq<Cell>> {
    seq![
        seq![F, F, F, F, F, W, W, W, W],
        seq![W, W, W, W, W, W, F, F, W],
        seq![W, F, F, F, F, F, F, F, W],
        seq![W, F, F, F, F, F, F, T, W],
        seq![W, P, F, W, W, W, W, W, W, W],
        seq![W, W, F, F, F, F, F, F, F, W],
        seq![F, W, F, W, F, W, F, F, F, W],
        seq![F, W, F, F, F, F, F, B, F, W],
        seq![F, W, F, F, F, W, W, W, W, W],
        seq![F, W, W, W, W, W],
    ]
}

/// The board of level three: `W` wall, `F` floor, `T` target, `B` box, `G` box on a
/// target, `P` player.
pub open spec fn level_three_grid() -> Seq<Seq<Cell>> {
    seq![
        seq![W, W, W, W, W, F, F, W, W, W, W, F, F, W, W, W, W, W],
        seq![W, F, F, F, W, W, W, W, F, F, W, W, W, W, F, F, F, W],
        seq![W, F, F, F, F, F, F, F, F, F, F, F, F, F, F, F, F, W],
        seq![W, W, F, F, F, F, F, F, F, F, W, W, W, F, F, F, W, W],
        seq![F, W, W, F, B, F, F, W, F, T, T, F, B, F, P, W, W],
        seq![W, W, F, F, W, W, F, F, F, W, W, W, W, F, F, F, W, W],
        seq![W, F, F, F, F, F, F, F, F, F, F, F, F, F, F, F, F, W],
        seq![W, F, F, F, W, W, W, W, W, W, W, W, W, W, F, F, F, W],
        seq![W, W, W, W, W, F, F, F, F, F, F, F, F, W, W, W, W, W],
    ]
}

/// The board of level four: `W` wall, `F` floor, `T` target, `B` box, `G` box on a
/// target, `P` player.
pub open spec fn level_four_grid() -> Seq<Seq<Cell>> {
    seq![
        seq![F, W, W, W, W, W],
        seq![W, W, F, F, F, W],
        seq![W, F, F, F, F, W, W],
        seq![W, F, F, W, F, F, W],
        seq![W, F, B, W, F, T, W, W, W],
        seq![W, F, F, W, G, T, F, F, W],
        seq![W, F, B, F, B, T, F, F, W],
        seq![W, F, F, W, B, T, W, W, W],
        seq![W, W, W, W, F, T, W],
        seq![F, F, W, W, B, T, W],
        seq![F, F, W, F, B, G, W],
        seq![F, F, W, F, F, P, W],
        seq![F, F, W, W, W, W, W],
    ]
}

/// The board of level five: `W` wall, `F` floor, `T` target, `B` box, `G` box on a
/// target, `P` player.
pub open spec fn level_five_grid() -> Seq<Seq<Cell>> {
    seq![
        seq![F, W, W, W, W],
        seq![W, W, F, F, W, W, W],
        seq![W, F, F, F, F, F, W, W, W],
        seq![W, F, W, G, G, G, T, F, W],
        seq![W, F, F, G, F, F, W, F, W],
        seq![W, F, F, G, F, F, F, F, W],
        seq![W, F, F, G, G, G, W, W, W, W],
        seq![W, W, W, W, F, F, G, F, F, W],
        seq![F, W, F, G, F, F, G, F, F, W],
        seq![F, W, F, B, G, G, F, F, F, W],
        seq![F, W, F, F, F, P, W, F, F, W],
        seq![F, W, W, W, W, W, W, W, W, W],
    ]
}

fn level_one() -> (grid: Grid)
    ensures
        grid@ == level_one_grid(),
{
    let rows = vec![
        vec![W, W, W, W, W],
        vec![W, F, F, F, W],
        vec![W, T, B, P, W],
        vec![W, F, F, F, W],
        vec![W, W, W, W, W],
    ];
    let grid = Grid::new(rows);
    assert(grid@ =~~= level_one_grid());
    grid
}

fn level_two() -> (grid: Grid)
    ensures
        grid@ == level_two_grid(),
{
    let rows = vec![
        vec![F, F, F, F, F, W, W, W, W],
        vec![W, W, W, W, W, W, F, F, W],
        vec![W, F, F, F, F, F, F, F, W],
        vec![W, F, F, F, F, F, F, T, W],
        vec![W, P, F, W, W, W, W, W, W, W],
        vec![W, W, F, F, F, F, F, F, F, W],
        vec![F, W, F, W, F, W, F, F, F, W],
        vec![F, W, F, F, F, F, F, B, F, W],
        vec![F, W, F, F, F, W, W, W, W, W],
        vec![F, W, W, W, W, W],
    ];
    let grid = Grid::new(rows);
    assert(grid@ =~~= level_two_grid());
    grid
}

fn level_three() -> (grid: Grid)
    ensures
        grid@ == level_three_grid(),
{
    let rows = vec![
        vec![W, W, W, W, W, F, F, W, W, W, W, F, F, W, W, W, W, W],
        vec![W, F, F, F, W, W, W, W, F, F, W, W, W, W, F, F, F, W],
        vec![W, F, F, F, F, F, F, F, F, F, F, F, F, F, F, F, F, W],
        vec![W, W, F, F, F, F, F, F, F, F, W, W, W, F, F, F, W, W],
        vec![F, W, W, F, B, F, F, W, F, T, T, F, B, F, P, W, W],
        vec![W, W, F, F, W, W, F, F, F, W, W, W, W, F, F, F, W, W],
        vec![W, F, F, F, F, F, F, F, F, F, F, F, F, F, F, F, F, W],
        vec![W, F, F, F, W, W, W, W, W, W, W, W, W, W, F, F, F, W],
        vec![W, W, W, W, W, F, F, F, F, F, F, F, F, W, W, W, W, W],
    ];
    let grid = Grid::new(rows);
    assert(grid@ =~~= level_three_grid());
    grid
}

fn level_four() -> (grid: Grid)
    ensures
        grid@ == level_four_grid(),
{
    let rows = vec![
        vec![F, W, W, W, W, W],
        vec![W, W, F, F, F, W],
        vec![W, F, F, F, F, W, W],
        vec![W, F, F, W, F, F, W],
        vec![W, F, B, W, F, T, W, W, W],
        vec![W, F, F, W, G, T, F, F, W],
        vec![W, F, B, F, B, T, F, F, W],
        vec![W, F, F, W, B, T, W, W, W],
        vec![W, W, W, W, F, T, W],
        vec![F, F, W, W, B, T, W],
        vec![F, F, W, F, B, G, W],
        vec![F, F, W, F, F, P, W],
        vec![F, F, W, W, W, W, W],
    ];
    let grid = Grid::new(rows);
    assert(grid@ =~~= level_four_grid());
    grid
}

fn level_five() -> (grid: Grid)
    ensures
        grid@ == level_five_grid(),
{
    let rows = vec![
        vec![F, W, W, W, W],
        vec![W, W, F, F, W, W, W],
        vec![W, F, F, F, F, F, W, W, W],
        vec![W, F, W, G, G, G, T, F, W],
        vec![W, F, F, G, F, F, W, F, W],
        vec![W, F, F, G, F, F, F, F, W],
        vec![W, F, F, G, G, G, W, W, W, W],
        vec![W, W, W, W, F, F, G, F, F, W],
        vec![F, W, F, G, F, F, G, F, F, W],
        vec![F, W, F, B, G, G, F, F, F, W],
        vec![F, W, F, F, F, P, W, F, F, W],
        vec![F, W, W, W, W, W, W, W, W, W],
    ];
    let grid = Grid::new(rows);
    assert(grid@ =~~= level_five_grid());
    grid
}

impl Level {
    /// The number under which the level is chosen, from 1.
    pub open spec fn spec_number(self) -> u64 {
        match self {
            Level::One => 1,
            Level::Two => 2,
            Level::Three => 3,
            Level::Four => 4,
            Level::Five => 5,
        }
    }

    #[verifier::when_used_as_spec(spec_number)]
    pub fn number(self) -> (n: u64)
        ensures
            n == self.spec_number(),
    {
        match self {
            Level::One => 1,
            Level::Two => 2,
            Level::Three => 3,
            Level::Four => 4,
            Level::Five => 5,
        }
    }

    /// The board that the level starts from.
    pub open spec fn starting_grid(self) -> Seq<Seq<Cell>> {
        match self {
            Level::One => level_one_grid(),
            Level::Two => level_two_grid(),
            Level::Three => level_three_grid(),
            Level::Four => level_four_grid(),
            Level::Five => level_five_grid(),
        }
    }

    /// The cell where the player starts.
    pub open spec fn starting_position(self) -> Position {
        match self {
            Level::One => (3, 2),
            Level::Two => (1, 4),
            Level::Three => (14, 4),
            Level::Four => (5, 11),
            Level::Five => (5, 10),
        }
    }

    /// A fresh copy of the level's board and the player's starting position.
    pub fn start(self) -> (fresh: (Grid, Position))
        ensures
            fresh.0@ == self.starting_grid(),
            fresh.1 == self.starting_position(),
    {
        match self {
            Level::One => (level_one(), (3, 2)),
            Level::Two => (level_two(), (1, 4)),
            Level::Three => (level_three(), (14, 4)),
            Level::Four => (level_four(), (5, 11)),
            Level::Five => (level_five(), (5, 10)),
        }
    }
}

proof fn lemma_level_one_is_sound()
    ensures
        sole_player_at(level_one_grid(), (3, 2)),
        !no_box_left(level_one_grid()),
{
    let g = level_one_grid();
    assert(g[2][2] == Cell::Box);
}

proof fn lemma_level_two_is_sound()
    ensures
        sole_player_at(level_two_grid(), (1, 4)),
        !no_box_left(level_two_grid()),
{
    let g = level_two_grid();
    assert(g[7][7] == Cell::Box);
}

proof fn lemma_level_three_is_sound()
    ensures
        sole_player_at(level_three_grid(), (14, 4)),
        !no_box_left(level_three_grid()),
{
    let g = level_three_grid();
    assert(g[4][4] == Cell::Box);
}

proof fn lemma_level_four_is_sound()
    ensures
        sole_player_at(level_four_grid(), (5, 11)),
        !no_box_left(level_four_grid()),
{
    let g = level_four_grid();
    assert(g[4][2] == Cell::Box);
}

proof fn lemma_level_five_is_sound()
    ensures
        sole_player_at(level_five_grid(), (5, 10)),
        !no_box_left(level_five_grid()),
{
    let g = level_five_grid();
    assert(g[9][3] == Cell::Box);
}

/// Every level starts with the player on exactly one cell, the starting
/// position, and with at least one box off its target.
pub proof fn lemma_levels_are_sound(level: Level)
    ensures
        sole_player_at(level.starting_grid(), level.starting_position()),
        !no_box_left(level.starting_grid()),
{
    match level {
        Level::One => lemma_level_one_is_sound(),
        Level::Two => lemma_level_two_is_sound(),
        Level::Three => lemma_level_three_is_sound(),
        Level::Four => lemma_level_four_is_sound(),
        Level::Five => lemma_level_five_is_sound(),
    }
}

} // verus!
