//! The rule of the game: where a step leads, when it is refused, and what it
//! does to the board when it is not.

use vstd::prelude::*;
use crate::cell::Cell;
use crate::grid::{
    cell_at, in_bounds, lemma_with_cell, set_grid_cell, sole_player_at, with_cell, Grid, Position,
};

verus! {

/// The four directions in which the player can step.
#[derive(Clone, Copy, Debug, PartialEq, Eq, Structural)]
pub enum MoveDirection {
    Up,
    Right,
    Down,
    Left,
}

impl MoveDirection {
    /// The change of column that one step makes.
    pub open spec fn dx(self) -> int {
        match self {
            MoveDirection::Right => 1,
            MoveDirection::Left => -1,
            _ => 0,
        }
    }

    /// The change of row that one step makes.
    pub open spec fn dy(self) -> int {
        match self {
            MoveDirection::Down => 1,
            MoveDirection::Up => -1,
            _ => 0,
        }
    }

    /// The direction that leads back.
    pub open spec fn spec_inverse(self) -> MoveDirection {
        match self {
            MoveDirection::Up => MoveDirection::Down,
            MoveDirection::Down => MoveDirection::Up,
            MoveDirection::Left => MoveDirection::Right,
            MoveDirection::Right => MoveDirection::Left,
        }
    }

    #[verifier::when_used_as_spec(spec_inverse)]
    pub fn inverse(self) -> (back: MoveDirection)
        ensures
            back == self.spec_inverse(),
    {
        match self {
            MoveDirection::Up => MoveDirection::Down,
            MoveDirection::Down => MoveDirection::Up,
            MoveDirection::Left => MoveDirection::Right,
            MoveDirection::Right => MoveDirection::Left,
        }
    }
}

/// Why a move was refused.
#[derive(Clone, Copy, Debug, PartialEq, Eq, Structural)]
pub enum MoveRejection {
    /// The player would step into a wall.
    BlockedByWall,
    /// The player would push a box that cannot move on.
    BlockedByBox,
}

/// The position one step from `p` in direction `d`, or `p` itself where
/// that step would leave the board: the edge absorbs the step.
pub open spec fn clamped_step(g: Seq<Seq<Cell>>, p: Position, d: MoveDirection) -> Position {
    let x = p.0 + d.dx();
    let y = p.1 + d.dy();
    if 0 <= y < g.len() && 0 <= x < g[y].len() && x <= i32::MAX && y <= i32::MAX {
        (x as i32, y as i32)
    } else {
        p
    }
}

/// Why the move from `p` in direction `d` is refused, if it is.
///
/// A wall refuses the player. A box refuses to be pushed unless the cell
/// behind it is free; at the edge of the board the cell behind a box is the
/// box's own cell, so the edge holds a box as a wall does.
pub open spec fn move_rejection(g: Seq<Seq<Cell>>, p: Position, d: MoveDirection) -> Option<
    MoveRejection,
> {
    let target = clamped_step(g, p, d);
    match cell_at(g, target) {
        Cell::Wall => Some(MoveRejection::BlockedByWall),
        Cell::Box | Cell::BoxOnTarget => if cell_at(g, clamped_step(g, target, d)).is_free() {
            None
        } else {
            Some(MoveRejection::BlockedByBox)
        },
        _ => None,
    }
}

/// `g` after the player has left the cell at `p`, which held `was`.
pub open spec fn after_leaving(g: Seq<Seq<Cell>>, p: Position, was: Cell) -> Seq<Seq<Cell>> {
    if was.holds_player() {
        with_cell(g, p, was.vacated())
    } else {
        g
    }
}

/// The board after the move from `p` in direction `d`.
///
/// A refused move leaves the board as it is, and so does a step that the
/// edge absorbs. A step onto a free cell puts the player there. A push puts
/// the box one cell further and the player where the box was. In both the
/// cell that the player leaves shows its ground again.
pub open spec fn grid_after_move(g: Seq<Seq<Cell>>, p: Position, d: MoveDirection) -> Seq<
    Seq<Cell>,
> {
    let target = clamped_step(g, p, d);
    let there = cell_at(g, target);
    if move_rejection(g, p, d) is Some {
        g
    } else if there.is_free() {
        after_leaving(with_cell(g, target, there.with_player()), p, cell_at(g, p))
    } else if there.holds_box() {
        let beyond = clamped_step(g, target, d);
        after_leaving(
            with_cell(
                with_cell(g, beyond, cell_at(g, beyond).with_box()),
                target,
                there.with_player(),
            ),
            p,
            cell_at(g, p),
        )
    } else {
        g
    }
}

/// Where the player stands after the move from `p` in direction `d`.
pub open spec fn position_after_move(g: Seq<Seq<Cell>>, p: Position, d: MoveDirection) -> Position {
    let target = clamped_step(g, p, d);
    let there = cell_at(g, target);
    if move_rejection(g, p, d) is None && (there.is_free() || there.holds_box()) {
        target
    } else {
        p
    }
}

/// A step stays on the board.
pub proof fn lemma_clamped_step_in_bounds(g: Seq<Seq<Cell>>, p: Position, d: MoveDirection)
    requires
        in_bounds(g, p),
    ensures
        in_bounds(g, clamped_step(g, p, d)),
{
}

/// A move onto a wall changes neither the board nor the position.
pub proof fn lemma_wall_blocks(g: Seq<Seq<Cell>>, p: Position, d: MoveDirection)
    requires
        cell_at(g, clamped_step(g, p, d)) == Cell::Wall,
    ensures
        move_rejection(g, p, d) == Some(MoveRejection::BlockedByWall),
        grid_after_move(g, p, d) == g,
        position_after_move(g, p, d) == p,
{
}

/// A push against a second box, a wall or the edge of the board changes
/// neither the board nor the position.
pub proof fn lemma_blocked_box_blocks(g: Seq<Seq<Cell>>, p: Position, d: MoveDirection)
    requires
        cell_at(g, clamped_step(g, p, d)).holds_box(),
        ({
            let beyond = clamped_step(g, clamped_step(g, p, d), d);
            cell_at(g, beyond).holds_box() || cell_at(g, beyond) == Cell::Wall || beyond
                == clamped_step(g, p, d)
        }),
    ensures
        move_rejection(g, p, d) == Some(MoveRejection::BlockedByBox),
        grid_after_move(g, p, d) == g,
        position_after_move(g, p, d) == p,
{
}

/// A move keeps the shape of the board.
pub proof fn lemma_move_keeps_shape(g: Seq<Seq<Cell>>, p: Position, d: MoveDirection)
    requires
        in_bounds(g, p),
    ensures
        grid_after_move(g, p, d).len() == g.len(),
        forall|y: int|
            0 <= y < g.len() ==> (#[trigger] grid_after_move(g, p, d)[y]).len() == g[y].len(),
        forall|q: Position| in_bounds(grid_after_move(g, p, d), q) <==> in_bounds(g, q),
{
    let target = clamped_step(g, p, d);
    let beyond = clamped_step(g, target, d);
    let there = cell_at(g, target);
    if move_rejection(g, p, d) is None {
        if there.is_free() {
            let g1 = with_cell(g, target, there.with_player());
            lemma_with_cell(g, target, there.with_player());
            lemma_with_cell(g1, p, cell_at(g, p).vacated());
        } else if there.holds_box() {
            let g1 = with_cell(g, beyond, cell_at(g, beyond).with_box());
            let g2 = with_cell(g1, target, there.with_player());
            lemma_with_cell(g, beyond, cell_at(g, beyond).with_box());
            lemma_with_cell(g1, target, there.with_player());
            lemma_with_cell(g2, p, cell_at(g, p).vacated());
        }
    }
}

/// A move changes neither the walls nor the targets: every cell keeps its
/// ground, whatever comes to stand on it or leaves it.
pub proof fn lemma_move_keeps_the_ground(g: Seq<Seq<Cell>>, p: Position, d: MoveDirection)
    requires
        in_bounds(g, p),
    ensures
        forall|x: int, y: int|
            0 <= y < g.len() && 0 <= x < g[y].len() ==> {
                let after = #[trigger] grid_after_move(g, p, d)[y][x];
                &&& (after == Cell::Wall) == (g[y][x] == Cell::Wall)
                &&& after.on_target() == g[y][x].on_target()
            },
{
    let target = clamped_step(g, p, d);
    let beyond = clamped_step(g, target, d);
    let there = cell_at(g, target);
    if move_rejection(g, p, d) is None {
        if there.is_free() {
            let g1 = with_cell(g, target, there.with_player());
            lemma_with_cell(g, target, there.with_player());
            lemma_with_cell(g1, p, cell_at(g, p).vacated());
        } else if there.holds_box() {
            let g1 = with_cell(g, beyond, cell_at(g, beyond).with_box());
            let g2 = with_cell(g1, target, there.with_player());
            lemma_with_cell(g, beyond, cell_at(g, beyond).with_box());
            lemma_with_cell(g1, target, there.with_player());
            lemma_with_cell(g2, p, cell_at(g, p).vacated());
        }
    }
}

/// A move that is not refused keeps exactly one cell that holds the
/// player, and that cell is where the player then stands.
pub proof fn lemma_move_keeps_sole_player(g: Seq<Seq<Cell>>, p: Position, d: MoveDirection)
    requires
        sole_player_at(g, p),
    ensures
        sole_player_at(grid_after_move(g, p, d), position_after_move(g, p, d)),
{
    let target = clamped_step(g, p, d);
    let beyond = clamped_step(g, target, d);
    let there = cell_at(g, target);
    let after = grid_after_move(g, p, d);
    let q = position_after_move(g, p, d);
    lemma_move_keeps_shape(g, p, d);
    if move_rejection(g, p, d) is None {
        if there.is_free() {
            let g1 = with_cell(g, target, there.with_player());
            lemma_with_cell(g, target, there.with_player());
            lemma_with_cell(g1, p, cell_at(g, p).vacated());
            assert(target != p);
            assert forall|x: int, y: int|
                0 <= y < after.len() && 0 <= x < after[y].len() && (
                #[trigger] after[y][x]).holds_player() implies x == q.0 && y == q.1 by {
                if !(x == target.0 && y == target.1) && !(x == p.0 && y == p.1) {
                    assert(after[y][x] == g1[y][x]);
                    assert(g1[y][x] == g[y][x]);
                }
            }
        } else if there.holds_box() {
            let g1 = with_cell(g, beyond, cell_at(g, beyond).with_box());
            let g2 = with_cell(g1, target, there.with_player());
            lemma_with_cell(g, beyond, cell_at(g, beyond).with_box());
            lemma_with_cell(g1, target, there.with_player());
            lemma_with_cell(g2, p, cell_at(g, p).vacated());
            assert(target != p);
            assert(beyond != p);
            assert(beyond != target);
            assert forall|x: int, y: int|
                0 <= y < after.len() && 0 <= x < after[y].len() && (
                #[trigger] after[y][x]).holds_player() implies x == q.0 && y == q.1 by {
                if !(x == target.0 && y == target.1) && !(x == p.0 && y == p.1) && !(x == beyond.0
                    && y == beyond.1) {
                    assert(after[y][x] == g2[y][x]);
                    assert(g2[y][x] == g1[y][x]);
                    assert(g1[y][x] == g[y][x]);
                }
            }
        }
    }
}

/// The position one step from `current_position`, or `current_position`
/// itself where the step would leave the board.
pub fn next_position(direction: MoveDirection, current_position: Position, grid: &Grid) -> (next:
    Position)
    ensures
        next == clamped_step(grid@, current_position, direction),
{
    let (x, y) = current_position;
    let stepped: Option<Position> = match direction {
        MoveDirection::Up => if y > i32::MIN {
            Some((x, y - 1))
        } else {
            None
        },
        MoveDirection::Down => if y < i32::MAX {
            Some((x, y + 1))
        } else {
            None
        },
        MoveDirection::Left => if x > i32::MIN {
            Some((x - 1, y))
        } else {
            None
        },
        MoveDirection::Right => if x < i32::MAX {
            Some((x + 1, y))
        } else {
            None
        },
    };
    match stepped {
        Some(q) => if grid.contains(q) {
            q
        } else {
            current_position
        },
        None => current_position,
    }
}

/// Makes the move from `position` in `direction` on `grid`. Gives the
/// position where the player then stands, or the reason why the move was
/// refused; a refused move leaves the board untouched.
pub fn resolve_move(grid: &mut Grid, position: Position, direction: MoveDirection) -> (res: Result<
    Position,
    MoveRejection,
>)
    requires
        in_bounds(old(grid)@, position),
    ensures
        final(grid)@ == grid_after_move(old(grid)@, position, direction),
        res == match move_rejection(old(grid)@, position, direction) {
            Some(reason) => Err::<Position, MoveRejection>(reason),
            None => Ok(position_after_move(old(grid)@, position, direction)),
        },
        res is Err ==> final(grid)@ == old(grid)@,
        res matches Ok(q) ==> in_bounds(final(grid)@, q),
        res matches Ok(q) ==> (sole_player_at(old(grid)@, position) ==> sole_player_at(
            final(grid)@,
            q,
        )),
{
    proof {
        lemma_move_keeps_shape(grid@, position, direction);
        if sole_player_at(grid@, position) {
            lemma_move_keeps_sole_player(grid@, position, direction);
        }
    }
    let target = next_position(direction, position, grid);
    let there = grid.cell(target);
    let here = grid.cell(position);
    match there {
        Cell::Wall => {
            return Err(MoveRejection::BlockedByWall);
        },
        Cell::Floor => {
            set_grid_cell(grid, target, Cell::Player);
        },
        Cell::Target => {
            set_grid_cell(grid, target, Cell::PlayerOnTarget);
        },
        Cell::Box | Cell::BoxOnTarget => {
            let beyond = next_position(direction, target, grid);
            match grid.cell(beyond) {
                Cell::Floor => {
                    set_grid_cell(grid, beyond, Cell::Box);
                },
                Cell::Target => {
                    set_grid_cell(grid, beyond, Cell::BoxOnTarget);
                },
                _ => {
                    return Err(MoveRejection::BlockedByBox);
                },
            }
            proof {
                lemma_with_cell(old(grid)@, beyond, cell_at(old(grid)@, beyond).with_box());
            }
            match there {
                Cell::Box => {
                    set_grid_cell(grid, target, Cell::Player);
                },
                _ => {
                    set_grid_cell(grid, target, Cell::PlayerOnTarget);
                },
            }
        },
        Cell::Player | Cell::PlayerOnTarget => {
            return Ok(position);
        },
    }
    proof {
        lemma_with_cell(old(grid)@, target, there.with_player());
    }
    match here {
        Cell::Player => {
            set_grid_cell(grid, position, Cell::Floor);
        },
        Cell::PlayerOnTarget => {
            set_grid_cell(grid, position, Cell::Target);
        },
        _ => {},
    }
    Ok(target)
}

} // verus!
