//! From a key to the command it stands for.

use vstd::prelude::*;
use crate::level::Level;
use crate::moves::MoveDirection;

verus! {

/// What happened to a key.
#[derive(Clone, Copy, Debug, PartialEq, Eq, Structural)]
pub enum KeyEventKind {
    Press,
    Repeat,
    Release,
}

/// Which key it was: one that gives a character, or any other.
#[derive(Clone, Copy, Debug, PartialEq, Eq, Structural)]
pub enum KeyCode {
    Char(char),
    Other,
}

/// One event of the keyboard.
#[derive(Clone, Copy, Debug, PartialEq, Eq, Structural)]
pub struct KeyEvent {
    pub code: KeyCode,
    pub kind: KeyEventKind,
}

/// What the player can ask of the game.
#[derive(Clone, Copy, Debug, PartialEq, Eq, Structural)]
pub enum Command {
    Quit,
    Move(MoveDirection),
    LevelChoose,
    LevelSelect(Level),
    Reset,
    ReverseMove,
}

/// The command that a character stands for, if any. Upper and lower case differ.
pub open spec fn command_of_char(c: char) -> Option<Command> {
    if c == 'q' {
        Some(Command::Quit)
    } else if c == 'm' {
        Some(Command::LevelChoose)
    } else if c == 'w' {
        Some(Command::Move(MoveDirection::Up))
    } else if c == 'a' {
        Some(Command::Move(MoveDirection::Left))
    } else if c == 's' {
        Some(Command::Move(MoveDirection::Down))
    } else if c == 'd' {
        Some(Command::Move(MoveDirection::Right))
    } else if c == '1' {
        Some(Command::LevelSelect(Level::One))
    } else if c == '2' {
        Some(Command::LevelSelect(Level::Two))
    } else if c == '3' {
        Some(Command::LevelSelect(Level::Three))
    } else if c == '4' {
        Some(Command::LevelSelect(Level::Four))
    } else if c == '5' {
        Some(Command::LevelSelect(Level::Five))
    } else if c == 'r' {
        Some(Command::Reset)
    } else if c == 'b' {
        Some(Command::ReverseMove)
    } else {
        None
    }
}

/// The command that a key event stands for, if any: only the press of a
/// character key counts.
pub open spec fn command_of_key(key: KeyEvent) -> Option<Command> {
    match (key.kind, key.code) {
        (KeyEventKind::Press, KeyCode::Char(c)) => command_of_char(c),
        _ => None,
    }
}

/// The command that `key` stands for, if any.
pub fn read_input(key: KeyEvent) -> (command: Option<Command>)
    ensures
        command == command_of_key(key),
{
    let c = match (key.kind, key.code) {
        (KeyEventKind::Press, KeyCode::Char(c)) => c,
        _ => {
            return None;
        },
    };
    if c == 'q' {
        Some(Command::Quit)
    } else if c == 'm' {
        Some(Command::LevelChoose)
    } else if c == 'w' {
        Some(Command::Move(MoveDirection::Up))
    } else if c == 'a' {
        Some(Command::Move(MoveDirection::Left))
    } else if c == 's' {
        Some(Command::Move(MoveDirection::Down))
    } else if c == 'd' {
        Some(Command::Move(MoveDirection::Right))
    } else if c == '1' {
        Some(Command::LevelSelect(Level::One))
    } else if c == '2' {
        Some(Command::LevelSelect(Level::Two))
    } else if c == '3' {
        Some(Command::LevelSelect(Level::Three))
    } else if c == '4' {
        Some(Command::LevelSelect(Level::Four))
    } else if c == '5' {
        Some(Command::LevelSelect(Level::Five))
    } else if c == 'r' {
        Some(Command::Reset)
    } else if c == 'b' {
        Some(Command::ReverseMove)
    } else {
        None
    }
}

} // verus!
