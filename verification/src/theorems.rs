//! What holds of every session, proved from the rules of the game.

use vstd::prelude::*;
use crate::grid::{cell_at, lemma_with_cell, no_box_left, with_cell};
use crate::input::Command;
use crate::level::{lemma_levels_are_sound, Level};
use crate::moves::{
    clamped_step, grid_after_move, lemma_move_keeps_shape, lemma_move_keeps_sole_player,
    position_after_move, MoveDirection,
};
use crate::session::{Action, GameView, Notice};

verus! {

/// Every command keeps a session well formed: while a level is played the
/// player stands on exactly one cell of the board. It also keeps it
/// settled: no command leaves a solved level active.
pub proof fn lemma_commands_keep_the_session_sound(s: GameView, command: Command)
    requires
        s.wf(),
    ensures
        s.execute(command).wf(),
        s.settled() ==> s.execute(command).settled(),
{
    match command {
        Command::LevelSelect(level) => {
            lemma_levels_are_sound(level);
        },
        Command::Reset => {
            if let Some(level) = s.level {
                lemma_levels_are_sound(level);
            }
        },
        Command::Move(direction) => {
            if s.level is Some {
                lemma_move_keeps_sole_player(s.grid, s.player_position, direction);
            }
        },
        Command::ReverseMove => {
            if s.can_undo() {
                lemma_move_keeps_sole_player(
                    s.grid,
                    s.player_position,
                    s.moves.last().spec_inverse(),
                );
            }
        },
        _ => {},
    }
}

/// A move that is refused, by a wall or by a box that cannot move, changes
/// nothing in the session: not the board, not the position, not the count,
/// not the history.
pub proof fn lemma_refused_move_changes_nothing(s: GameView, direction: MoveDirection)
    requires
        s.settled(),
        s.rejection(direction) is Some,
    ensures
        s.player_move(direction, true) == s,
        s.execute(Command::Move(direction)) == s,
{
}

/// A move that is made counts once: the current count of the level goes up
/// by exactly one, its best count stays, and the direction is added to the
/// history. Where the move solves the level, the notice of the win tells
/// the count with that move in it.
pub proof fn lemma_move_counts_once(s: GameView, level: Level, direction: MoveDirection)
    requires
        s.wf(),
        s.level == Some(level),
        s.has_room(),
        s.rejection(direction) is None,
    ensures
        s.player_move(direction, true).current(level) == s.current(level) + 1,
        s.player_move(direction, true).best(level) == s.best(level),
        s.player_move(direction, true).moves == s.moves.push(direction),
        s.player_move(direction, false).scores == s.scores,
        s.player_move(direction, false).moves == s.moves,
        ({
            let after = s.execute(Command::Move(direction));
            if after.level is Some {
                after.current(level) == s.current(level) + 1
            } else {
                after.notice == (Notice::Solved {
                    moves: (s.current(level) + 1) as i32,
                    best: s.best(level),
                    new_record: s.best(level) == 0 || s.current(level) + 1 < s.best(level),
                })
            }
        }),
{
}

/// A win is detected exactly when no box is left off its target, and at
/// once: the move after which none is left ends the level, and a move after
/// which one is left does not. How many boxes stand on targets plays no part.
pub proof fn lemma_win_is_detected_at_once(s: GameView, level: Level, direction: MoveDirection)
    requires
        s.wf(),
        s.level == Some(level),
    ensures
        s.execute(Command::Move(direction)).level is None <==> no_box_left(
            s.player_move(direction, true).grid,
        ),
        s.execute(Command::Move(direction)).level is Some ==> s.execute(
            Command::Move(direction),
        ).level == Some(level),
        s.finish_if_solved().level is None <==> no_box_left(s.grid),
{
}

/// A win leaves the level, sets its current count back to 0 and keeps as
/// its best count the fewest moves in which it was ever solved: the count
/// of this win where there was no record or it is lower, else the record.
/// The scores of the other levels stay.
pub proof fn lemma_best_is_the_fewest(s: GameView, level: Level)
    requires
        s.level == Some(level),
        s.is_won(),
    ensures
        ({
            let won = s.finish_if_solved();
            &&& won.level is None
            &&& won.current(level) == 0
            &&& won.best(level) == if s.best(level) == 0 || s.current(level) < s.best(level) {
                s.current(level)
            } else {
                s.best(level)
            }
            &&& forall|other: Level| other != level ==> won.scores.contains_key(other)
                == s.scores.contains_key(other) && won.scores[other] == s.scores[other]
        }),
{
}

/// Starting a level sets its current count to 0 and keeps its best count,
/// whatever went before. So a level that was won and is chosen again begins
/// at 0 with the record of the win still standing.
pub proof fn lemma_restart_keeps_the_record(s: GameView, level: Level)
    ensures
        s.execute(Command::LevelSelect(level)).current(level) == 0,
        s.execute(Command::LevelSelect(level)).best(level) == s.best(level),
        s.level == Some(level) && s.is_won() ==> {
            let won = s.finish_if_solved();
            &&& won.best(level) == if s.sets_record(level) {
                s.current(level)
            } else {
                s.best(level)
            }
            &&& won.execute(Command::LevelSelect(level)).current(level) == 0
            &&& won.execute(Command::LevelSelect(level)).best(level) == won.best(level)
        },
{
}

/// Undo after a plain step, one onto a free cell with no box pushed, puts
/// the player back where the step began and the board back as it was. The
/// history is one shorter than after the step, as long as before it, and
/// the undo adds nothing to the count.
pub proof fn lemma_undo_takes_back_a_plain_step(
    s: GameView,
    level: Level,
    direction: MoveDirection,
)
    requires
        s.settled(),
        s.level == Some(level),
        s.has_room(),
        cell_at(s.grid, clamped_step(s.grid, s.player_position, direction)).is_free(),
    ensures
        ({
            let stepped = s.execute(Command::Move(direction));
            let undone = stepped.execute(Command::ReverseMove);
            &&& stepped.level == Some(level)
            &&& stepped.moves.len() == s.moves.len() + 1
            &&& undone.level == Some(level)
            &&& undone.player_position == s.player_position
            &&& undone.grid == s.grid
            &&& undone.moves == s.moves
            &&& undone.scores == stepped.scores
            &&& undone.current(level) == s.current(level) + 1
        }),
{
    let g = s.grid;
    let p = s.player_position;
    let t = clamped_step(g, p, direction);
    let back = direction.spec_inverse();
    let moved = s.player_move(direction, true);
    let g1 = moved.grid;
    lemma_with_cell(g, t, cell_at(g, t).with_player());
    lemma_with_cell(with_cell(g, t, cell_at(g, t).with_player()), p, cell_at(g, p).vacated());
    lemma_move_keeps_shape(g, p, direction);
    assert(t != p);
    assert(moved.player_position == t);
    // the step moves no box, so a box is still off its target
    let (bx, by) = choose|x: int, y: int|
        0 <= y < g.len() && 0 <= x < g[y].len() && g[y][x] == crate::cell::Cell::Box;
    assert(g1[by][bx] == crate::cell::Cell::Box);
    assert(!no_box_left(g1));
    let stepped = s.execute(Command::Move(direction));
    assert(stepped == moved);
    assert(stepped.moves.last() == direction);
    assert(stepped.moves.drop_last() =~= s.moves);
    // the step back leads onto the cell that the player left
    assert(clamped_step(g1, t, back) == p);
    assert(cell_at(g1, p) == cell_at(g, p).vacated());
    assert(cell_at(g1, p).is_free());
    let g2 = grid_after_move(g1, t, back);
    lemma_with_cell(g1, p, cell_at(g1, p).with_player());
    lemma_with_cell(with_cell(g1, p, cell_at(g1, p).with_player()), t, cell_at(g1, t).vacated());
    assert(g2 =~~= g);
    assert(position_after_move(g1, t, back) == p);
    let undone = stepped.execute(Command::ReverseMove);
    assert(undone.grid == g);
}

/// Reset while a level is played puts the level's own board and starting
/// position back exactly and empties the history. The level's best count
/// stays, and so do the scores of every other level.
pub proof fn lemma_reset_restores_the_level(s: GameView, level: Level)
    requires
        s.level == Some(level),
    ensures
        ({
            let fresh = s.execute(Command::Reset);
            &&& fresh.level == Some(level)
            &&& fresh.grid == level.starting_grid()
            &&& fresh.player_position == level.starting_position()
            &&& fresh.moves == Seq::<MoveDirection>::empty()
            &&& fresh.best(level) == s.best(level)
            &&& fresh.current(level) == 0
            &&& forall|other: Level| other != level ==> fresh.scores.contains_key(other)
                == s.scores.contains_key(other) && fresh.scores[other] == s.scores[other]
        }),
{
}

/// While no level is played, the commands that need one change nothing.
pub proof fn lemma_idle_session_ignores_play(s: GameView, command: Command)
    requires
        s.level is None,
        command is Move || command is Reset || command is ReverseMove,
    ensures
        s.execute(command) == s,
        s.action_after(command) == (Action::Handled { sound: None }),
{
}

} // verus!
