//! The session: which level is being played, the board and the player on
//! it, the moves made so far and the scores of every level entered.

use vstd::prelude::*;
use std::collections::HashMap;
use crate::cell::Cell;
use crate::grid::{no_box_left, sole_player_at, Grid, Position};
use crate::input::{read_input, Command, KeyEvent, command_of_key};
use crate::level::{lemma_levels_are_sound, Level};
use crate::moves::{
    grid_after_move, move_rejection, position_after_move, resolve_move, MoveDirection,
    MoveRejection,
};
use crate::sound::{cue_for, sound_for_rejection, SoundType};

verus! {

broadcast use vstd::std_specs::hash::group_hash_axioms;

/// What the screen shows while no level is being played.
#[derive(Clone, Copy, Debug, PartialEq, Eq, Structural)]
pub enum Notice {
    /// The greeting at the start.
    Welcome,
    /// The list of levels to choose from.
    LevelMenu,
    /// A level was solved in `moves` moves; `best` is the record that stood
    /// before, 0 if there was none.
    Solved { moves: i32, best: i32, new_record: bool },
}

/// How a solved level compares with the record.
#[derive(Clone, Copy, Debug, PartialEq, Eq, Structural)]
pub enum Win {
    NewRecord,
    NoRecord,
}

/// What the caller has to do after a key.
#[derive(Clone, Copy, Debug, PartialEq, Eq, Structural)]
pub enum Action {
    /// The key stands for no command; nothing has changed.
    Ignored,
    /// The command was carried out. Play `sound`, if there is one, and draw
    /// the screen again.
    Handled { sound: Option<SoundType> },
    /// Leave the game.
    Quit,
}

/// The session as a mathematical value.
#[verifier::ext_equal]
pub struct GameView {
    pub grid: Seq<Seq<Cell>>,
    pub player_position: Position,
    pub level: Option<Level>,
    /// For each level entered so far, its best and its current move count.
    /// A best count of 0 stands for no record yet.
    pub scores: Map<Level, (i32, i32)>,
    pub moves: Seq<MoveDirection>,
    pub notice: Notice,
}

impl GameView {
    /// The session at the start: no level, no scores, the greeting on screen.
    pub open spec fn initial() -> GameView {
        GameView {
            grid: Seq::empty(),
            player_position: (0, 0),
            level: None,
            scores: Map::empty(),
            moves: Seq::empty(),
            notice: Notice::Welcome,
        }
    }

    /// The best move count recorded for `level`, 0 where there is none.
    pub open spec fn best(self, level: Level) -> i32 {
        if self.scores.contains_key(level) {
            self.scores[level].0
        } else {
            0
        }
    }

    /// The moves counted for `level` since it was last started.
    pub open spec fn current(self, level: Level) -> i32 {
        if self.scores.contains_key(level) {
            self.scores[level].1
        } else {
            0
        }
    }

    /// While a level is played, the player stands on exactly one cell of
    /// the board, and the level has its scores.
    pub open spec fn wf(self) -> bool {
        self.level matches Some(level) ==> {
            &&& sole_player_at(self.grid, self.player_position)
            &&& self.scores.contains_key(level)
        }
    }

    /// Well formed, and the level that is played is not solved yet: a
    /// solved level does not stay active.
    pub open spec fn settled(self) -> bool {
        &&& self.wf()
        &&& self.level is Some ==> !no_box_left(self.grid)
    }

    /// One more move can be counted for the level that is played.
    pub open spec fn has_room(self) -> bool {
        self.level matches Some(level) ==> self.current(level) < i32::MAX
    }

    /// The session after `level` was started: a fresh board, the player
    /// at the start, no moves made and none counted. The level's best
    /// count stays.
    pub open spec fn start_level(self, level: Level) -> GameView {
        GameView {
            grid: level.starting_grid(),
            player_position: level.starting_position(),
            level: Some(level),
            scores: self.scores.insert(level, (self.best(level), 0)),
            moves: Seq::empty(),
            notice: self.notice,
        }
    }

    /// The session after the list of levels was called up: no level is
    /// played any more, and nothing else is touched.
    pub open spec fn choose_level(self) -> GameView {
        GameView { level: None, notice: Notice::LevelMenu, ..self }
    }

    /// Why the move in `direction` is refused, if a level is played and
    /// the move is refused.
    pub open spec fn rejection(self, direction: MoveDirection) -> Option<MoveRejection> {
        if self.level is Some {
            move_rejection(self.grid, self.player_position, direction)
        } else {
            None
        }
    }

    /// The session after the player was asked to move in `direction`.
    ///
    /// Nothing changes while no level is played, nor when the move is
    /// refused. Otherwise the board and the player's position are those
    /// after the move. A move that is recorded is also counted and added
    /// to the history; one that is not, the replay of an undo, is neither.
    pub open spec fn player_move(self, direction: MoveDirection, record_as_move: bool) -> GameView {
        match self.level {
            Some(level) if self.rejection(direction) is None => GameView {
                grid: grid_after_move(self.grid, self.player_position, direction),
                player_position: position_after_move(self.grid, self.player_position, direction),
                scores: if record_as_move {
                    self.scores.insert(
                        level,
                        (self.best(level), (self.current(level) + 1) as i32),
                    )
                } else {
                    self.scores
                },
                moves: if record_as_move {
                    self.moves.push(direction)
                } else {
                    self.moves
                },
                ..self
            },
            _ => self,
        }
    }

    /// A level is played and no box is left off its target.
    pub open spec fn is_won(self) -> bool {
        self.level is Some && no_box_left(self.grid)
    }

    /// Whether the moves counted for `level` set a record: there was none,
    /// or they are fewer.
    pub open spec fn sets_record(self, level: Level) -> bool {
        self.best(level) == 0 || self.current(level) < self.best(level)
    }

    /// How the level that is played was won, if it is won.
    pub open spec fn win(self) -> Option<Win> {
        match self.level {
            Some(level) if no_box_left(self.grid) => if self.sets_record(level) {
                Some(Win::NewRecord)
            } else {
                Some(Win::NoRecord)
            },
            _ => None,
        }
    }

    /// The session after the win, if there is one, was taken note of.
    ///
    /// A won level is left: no level is played any more, its current
    /// count goes back to 0, its best count becomes the current one where
    /// that sets a record, and the notice tells the counts. A session that
    /// is not won stays as it is.
    pub open spec fn finish_if_solved(self) -> GameView {
        match self.level {
            Some(level) if no_box_left(self.grid) => GameView {
                level: None,
                scores: self.scores.insert(
                    level,
                    (
                        if self.sets_record(level) {
                            self.current(level)
                        } else {
                            self.best(level)
                        },
                        0,
                    ),
                ),
                notice: Notice::Solved {
                    moves: self.current(level),
                    best: self.best(level),
                    new_record: self.sets_record(level),
                },
                ..self
            },
            _ => self,
        }
    }

    /// There is a move to take back: a level is played and its history
    /// is not empty.
    pub open spec fn can_undo(self) -> bool {
        self.level is Some && self.moves.len() > 0
    }

    /// The session with the last move taken off the history.
    pub open spec fn without_last_move(self) -> GameView {
        GameView { moves: self.moves.drop_last(), ..self }
    }

    /// The session after `command`.
    ///
    /// A move is made, counted and recorded, and a win is taken note of at
    /// once. An undo takes the last move off the history and makes the step
    /// that leads back, by the same rule as any move but without counting
    /// or recording it; it does not pull a box back. Reset starts the level
    /// that is played again. Commands that need a level do nothing while
    /// none is played.
    pub open spec fn execute(self, command: Command) -> GameView {
        match command {
            Command::Quit => self,
            Command::LevelChoose => self.choose_level(),
            Command::LevelSelect(level) => self.start_level(level),
            Command::Reset => match self.level {
                Some(level) => self.start_level(level),
                None => self,
            },
            Command::Move(direction) => self.player_move(direction, true).finish_if_solved(),
            Command::ReverseMove => if self.can_undo() {
                self.without_last_move().player_move(
                    self.moves.last().spec_inverse(),
                    false,
                ).finish_if_solved()
            } else {
                self
            },
        }
    }

    /// The cue to play after `command`: that of the refusal, where the
    /// command asked for a move and the move was refused.
    pub open spec fn sound_after(self, command: Command) -> Option<SoundType> {
        let refused = match command {
            Command::Move(direction) => self.rejection(direction),
            Command::ReverseMove => if self.can_undo() {
                self.rejection(self.moves.last().spec_inverse())
            } else {
                None
            },
            _ => None,
        };
        match refused {
            Some(reason) => Some(cue_for(reason)),
            None => None,
        }
    }

    /// What the caller has to do after `command`.
    pub open spec fn action_after(self, command: Command) -> Action {
        match command {
            Command::Quit => Action::Quit,
            _ => Action::Handled { sound: self.sound_after(command) },
        }
    }
}

/// The scores by level that a table by level number stands for.
pub open spec fn scores_by_level(table: Map<u64, (i32, i32)>) -> Map<Level, (i32, i32)> {
    Map::new(
        |level: Level| table.contains_key(level.spec_number()),
        |level: Level| table[level.spec_number()],
    )
}

/// The session.
pub struct GameState {
    grid: Grid,
    player_position: Position,
    level: Option<Level>,
    scores: HashMap<u64, (i32, i32)>,
    moves: Vec<MoveDirection>,
    notice: Notice,
}

impl View for GameState {
    type V = GameView;

    closed spec fn view(&self) -> GameView {
        GameView {
            grid: self.grid@,
            player_position: self.player_position,
            level: self.level,
            scores: scores_by_level(self.scores@),
            moves: self.moves@,
            notice: self.notice,
        }
    }
}

/// The session as it is when the game starts.
pub fn startup() -> (game_state: GameState)
    ensures
        game_state@ == GameView::initial(),
        game_state@.settled(),
{
    let game_state = GameState {
        grid: Grid::new(Vec::new()),
        player_position: (0, 0),
        level: None,
        scores: HashMap::new(),
        moves: Vec::new(),
        notice: Notice::Welcome,
    };
    assert(game_state@ =~~= GameView::initial());
    game_state
}

impl GameState {
    /// The board.
    pub fn grid(&self) -> (grid: &Grid)
        ensures
            grid@ == self@.grid,
    {
        &self.grid
    }

    /// Where the player stands.
    pub fn player_position(&self) -> (position: Position)
        ensures
            position == self@.player_position,
    {
        self.player_position
    }

    /// The level that is played, if one is.
    pub fn level(&self) -> (level: Option<Level>)
        ensures
            level == self@.level,
    {
        self.level
    }

    /// The best and the current move count of `level`, once it was entered.
    pub fn score(&self, level: Level) -> (score: Option<(i32, i32)>)
        ensures
            score == if self@.scores.contains_key(level) {
                Some(self@.scores[level])
            } else {
                None
            },
    {
        match self.scores.get(&level.number()) {
            Some(entry) => Some(*entry),
            None => None,
        }
    }

    /// The moves made since the level was started and not taken back.
    pub fn moves(&self) -> (moves: &Vec<MoveDirection>)
        ensures
            moves@ == self@.moves,
    {
        &self.moves
    }

    /// What the screen shows while no level is played.
    pub fn notice(&self) -> (notice: Notice)
        ensures
            notice == self@.notice,
    {
        self.notice
    }

    /// Whether one more move can be counted for the level that is played.
    pub fn has_room(&self) -> (room: bool)
        ensures
            room == self@.has_room(),
    {
        match self.level {
            Some(level) => match self.scores.get(&level.number()) {
                Some(entry) => entry.1 < i32::MAX,
                None => true,
            },
            None => true,
        }
    }

    /// Starts `level`, or starts it again.
    pub fn start_level(&mut self, level: Level)
        ensures
            final(self)@ == old(self)@.start_level(level),
            final(self)@.settled(),
    {
        let key = level.number();
        let best = match self.scores.get(&key) {
            Some(entry) => entry.0,
            None => 0,
        };
        self.scores.insert(key, (best, 0));
        let (grid, position) = level.start();
        self.grid = grid;
        self.player_position = position;
        self.moves = Vec::new();
        self.level = Some(level);
        proof {
            lemma_levels_are_sound(level);
            assert(self@.scores =~= old(self)@.scores.insert(level, (best, 0)));
            assert(self@ =~~= old(self)@.start_level(level));
        }
    }

    /// Calls up the list of levels.
    pub fn choose_level(&mut self)
        ensures
            final(self)@ == old(self)@.choose_level(),
            final(self)@.settled(),
    {
        self.level = None;
        self.notice = Notice::LevelMenu;
    }

    /// Asks the player to move in `direction`. Gives the reason where the
    /// move was refused.
    pub fn player_move(&mut self, direction: MoveDirection, record_as_move: bool) -> (refused:
        Option<MoveRejection>)
        requires
            old(self)@.wf(),
            record_as_move ==> old(self)@.has_room(),
        ensures
            final(self)@ == old(self)@.player_move(direction, record_as_move),
            refused == old(self)@.rejection(direction),
            final(self)@.wf(),
            refused is Some ==> final(self)@ == old(self)@,
    {
        let level = match self.level {
            Some(level) => level,
            None => {
                return None;
            },
        };
        match resolve_move(&mut self.grid, self.player_position, direction) {
            Err(reason) => Some(reason),
            Ok(position) => {
                self.player_position = position;
                if record_as_move {
                    self.moves.push(direction);
                    let key = level.number();
                    let (best, current) = match self.scores.get(&key) {
                        Some(entry) => *entry,
                        None => (0, 0),
                    };
                    self.scores.insert(key, (best, current + 1));
                    proof {
                        assert(self@.scores =~= old(self)@.scores.insert(
                            level,
                            (best, (current + 1) as i32),
                        ));
                    }
                }
                proof {
                    assert(self@ =~~= old(self)@.player_move(direction, record_as_move));
                }
                None
            },
        }
    }

    /// Takes note of a win: where a level is played and no box is left off
    /// its target, leaves the level and tells how it was won.
    pub fn finish_if_solved(&mut self) -> (win: Option<Win>)
        requires
            old(self)@.wf(),
        ensures
            final(self)@ == old(self)@.finish_if_solved(),
            win == old(self)@.win(),
            win is Some <==> old(self)@.is_won(),
            final(self)@.settled(),
    {
        let level = match self.level {
            Some(level) => level,
            None => {
                return None;
            },
        };
        if !is_solved(&self.grid) {
            return None;
        }
        let key = level.number();
        let (best, current) = match self.scores.get(&key) {
            Some(entry) => *entry,
            None => (0, 0),
        };
        let new_record = best == 0 || current < best;
        let kept = if new_record {
            current
        } else {
            best
        };
        self.scores.insert(key, (kept, 0));
        self.notice = Notice::Solved { moves: current, best, new_record };
        self.level = None;
        proof {
            assert(self@.scores =~= old(self)@.scores.insert(level, (kept, 0)));
            assert(self@ =~~= old(self)@.finish_if_solved());
        }
        if new_record {
            Some(Win::NewRecord)
        } else {
            Some(Win::NoRecord)
        }
    }

    /// Carries out `command` and says what the caller has to do.
    pub fn execute(&mut self, command: Command) -> (action: Action)
        requires
            old(self)@.wf(),
            command is Move ==> old(self)@.has_room(),
        ensures
            final(self)@ == old(self)@.execute(command),
            action == old(self)@.action_after(command),
            final(self)@.wf(),
            old(self)@.settled() ==> final(self)@.settled(),
    {
        let refused = match command {
            Command::Quit => {
                return Action::Quit;
            },
            Command::LevelChoose => {
                self.choose_level();
                None
            },
            Command::LevelSelect(level) => {
                self.start_level(level);
                None
            },
            Command::Reset => {
                match self.level {
                    Some(level) => {
                        self.start_level(level);
                    },
                    None => {},
                }
                None
            },
            Command::Move(direction) => {
                let refused = self.player_move(direction, true);
                self.finish_if_solved();
                refused
            },
            Command::ReverseMove => {
                if self.level.is_none() {
                    None
                } else {
                    match self.moves.pop() {
                        None => None,
                        Some(last) => {
                            assert(self@ =~~= old(self)@.without_last_move());
                            let refused = self.player_move(last.inverse(), false);
                            self.finish_if_solved();
                            refused
                        },
                    }
                }
            },
        };
        match refused {
            Some(reason) => Action::Handled { sound: Some(sound_for_rejection(reason)) },
            None => Action::Handled { sound: None },
        }
    }

    /// Carries out the command that `key` stands for, if it stands for one.
    pub fn do_action(&mut self, key: KeyEvent) -> (action: Action)
        requires
            old(self)@.wf(),
            command_of_key(key) matches Some(Command::Move(_)) ==> old(self)@.has_room(),
        ensures
            final(self)@ == match command_of_key(key) {
                Some(command) => old(self)@.execute(command),
                None => old(self)@,
            },
            action == match command_of_key(key) {
                Some(command) => old(self)@.action_after(command),
                None => Action::Ignored,
            },
            final(self)@.wf(),
            old(self)@.settled() ==> final(self)@.settled(),
    {
        match read_input(key) {
            Some(command) => self.execute(command),
            None => Action::Ignored,
        }
    }
}

/// Whether no box of `grid` is off its target.
pub fn is_solved(grid: &Grid) -> (solved: bool)
    ensures
        solved == no_box_left(grid@),
{
    let height = grid.height();
    let mut y: usize = 0;
    while y < height
        invariant
            height == grid@.len(),
            y <= height,
            forall|i: int, j: int|
                0 <= j < y && 0 <= i < grid@[j].len() ==> #[trigger] grid@[j][i] != Cell::Box,
        decreases height - y,
    {
        let width = grid.row_len(y);
        let mut x: usize = 0;
        while x < width
            invariant
                y < height,
                height == grid@.len(),
                width == grid@[y as int].len(),
                x <= width,
                forall|i: int, j: int|
                    0 <= j < y && 0 <= i < grid@[j].len() ==> #[trigger] grid@[j][i] != Cell::Box,
                forall|i: int| 0 <= i < x ==> #[trigger] grid@[y as int][i] != Cell::Box,
            decreases width - x,
        {
            match grid.cell_by_index(x, y) {
                Cell::Box => {
                    return false;
                },
                _ => {},
            }
            x += 1;
        }
        y += 1;
    }
    true
}

} // verus!
