//! A Sokoban puzzle engine: the board, the rule by which the player moves and
//! pushes boxes, the level catalogue and the session that keeps score.

pub mod cell;
pub mod grid;
pub mod input;
pub mod level;
pub mod moves;
pub mod render;
pub mod session;
pub mod sound;
pub mod theorems;
