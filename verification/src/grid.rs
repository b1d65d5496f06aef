//! The board as a plain surface of cells: rows of possibly different
//! lengths, read and written by position. Nothing here knows the rules.

use vstd::prelude::*;
use crate::cell::Cell;

verus! {

/// A position on the board: column first, then row, both counted from zero.
pub type Position = (i32, i32);

/// Whether `p` names a cell of `g`. Each row is held to its own length.
pub open spec fn in_bounds(g: Seq<Seq<Cell>>, p: Position) -> bool {
    0 <= p.1 < g.len() && 0 <= p.0 < g[p.1 as int].len()
}

/// The cell of `g` at `p`.
pub open spec fn cell_at(g: Seq<Seq<Cell>>, p: Position) -> Cell
    recommends
        in_bounds(g, p),
{
    g[p.1 as int][p.0 as int]
}

/// `g` with the cell at `p` replaced by `c`.
pub open spec fn with_cell(g: Seq<Seq<Cell>>, p: Position, c: Cell) -> Seq<Seq<Cell>>
    recommends
        in_bounds(g, p),
{
    g.update(p.1 as int, g[p.1 as int].update(p.0 as int, c))
}

/// No cell of `g` is a box off its target.
pub open spec fn no_box_left(g: Seq<Seq<Cell>>) -> bool {
    forall|x: int, y: int|
        0 <= y < g.len() && 0 <= x < g[y].len() ==> #[trigger] g[y][x] != Cell::Box
}

/// The cell at `p` holds the player, and no other cell of `g` does.
pub open spec fn sole_player_at(g: Seq<Seq<Cell>>, p: Position) -> bool {
    &&& in_bounds(g, p)
    &&& cell_at(g, p).holds_player()
    &&& forall|x: int, y: int|
        0 <= y < g.len() && 0 <= x < g[y].len() && (#[trigger] g[y][x]).holds_player() ==> x
            == p.0 && y == p.1
}

/// The rows of cells that a vector of rows stands for.
pub open spec fn rows_view(rows: Seq<Vec<Cell>>) -> Seq<Seq<Cell>> {
    Seq::new(rows.len(), |i: int| rows[i]@)
}

/// Writing a cell keeps the shape of the board, changes that cell and no other.
pub proof fn lemma_with_cell(g: Seq<Seq<Cell>>, p: Position, c: Cell)
    requires
        in_bounds(g, p),
    ensures
        with_cell(g, p, c).len() == g.len(),
        forall|y: int| 0 <= y < g.len() ==> (#[trigger] with_cell(g, p, c)[y]).len() == g[y].len(),
        forall|q: Position| in_bounds(with_cell(g, p, c), q) <==> in_bounds(g, q),
        cell_at(with_cell(g, p, c), p) == c,
        forall|x: int, y: int|
            0 <= y < g.len() && 0 <= x < g[y].len() && !(x == p.0 && y == p.1) ==> #[trigger] with_cell(
                g,
                p,
                c,
            )[y][x] == g[y][x],
{
}

/// The board: rows of cells, each row with a length of its own.
pub struct Grid {
    rows: Vec<Vec<Cell>>,
}

impl View for Grid {
    type V = Seq<Seq<Cell>>;

    closed spec fn view(&self) -> Seq<Seq<Cell>> {
        rows_view(self.rows@)
    }
}

impl Grid {
    /// The board made of the given rows.
    pub fn new(rows: Vec<Vec<Cell>>) -> (grid: Grid)
        ensures
            grid@ == rows_view(rows@),
    {
        Grid { rows }
    }

    /// The number of rows.
    pub fn height(&self) -> (n: usize)
        ensures
            n == self@.len(),
    {
        self.rows.len()
    }

    /// The length of one row.
    pub fn row_len(&self, row: usize) -> (n: usize)
        requires
            row < self@.len(),
        ensures
            n == self@[row as int].len(),
    {
        self.rows[row].len()
    }

    /// The cell in column `x` of row `y`.
    pub fn cell_by_index(&self, x: usize, y: usize) -> (cell: Cell)
        requires
            y < self@.len(),
            x < self@[y as int].len(),
        ensures
            cell == self@[y as int][x as int],
    {
        self.rows[y][x]
    }

    /// Whether `p` names a cell of the board.
    pub fn contains(&self, p: Position) -> (b: bool)
        ensures
            b == in_bounds(self@, p),
    {
        p.1 >= 0 && (p.1 as usize) < self.rows.len() && p.0 >= 0 && (p.0 as usize)
            < self.rows[p.1 as usize].len()
    }

    /// The cell at `p`, or nothing where `p` lies outside the board.
    pub fn get(&self, p: Position) -> (cell: Option<Cell>)
        ensures
            cell == if in_bounds(self@, p) {
                Some(cell_at(self@, p))
            } else {
                None
            },
    {
        if self.contains(p) {
            Some(self.rows[p.1 as usize][p.0 as usize])
        } else {
            None
        }
    }

    /// The cell at `p`.
    pub fn cell(&self, p: Position) -> (cell: Cell)
        requires
            in_bounds(self@, p),
        ensures
            cell == cell_at(self@, p),
    {
        self.rows[p.1 as usize][p.0 as usize]
    }
}

/// Writes `contents` into the cell at `coords`.
pub fn set_grid_cell(grid: &mut Grid, coords: Position, contents: Cell)
    requires
        in_bounds(old(grid)@, coords),
    ensures
        final(grid)@ == with_cell(old(grid)@, coords, contents),
{
    let y = coords.1 as usize;
    let x = coords.0 as usize;
    grid.rows[y][x] = contents;
}

} // verus!
