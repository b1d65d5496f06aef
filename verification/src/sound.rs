//! The sound cues of the game.

use vstd::prelude::*;
use crate::moves::MoveRejection;

verus! {

/// The cues that the game knows. Only the two for a refused move are ever
/// asked for; the others are kept for later.
#[derive(Clone, Copy, Debug, PartialEq, Eq, Structural)]
pub enum SoundType {
    /// The player ran into a wall.
    Oof,
    BarrelMove,
    BarrelCorrect,
    WinGame,
    /// The player pushed a box that could not move.
    BarrelOof,
    PlayerMove,
}

/// The cue for a refused move.
pub open spec fn cue_for(reason: MoveRejection) -> SoundType {
    match reason {
        MoveRejection::BlockedByWall => SoundType::Oof,
        MoveRejection::BlockedByBox => SoundType::BarrelOof,
    }
}

/// The cue for a refused move.
pub fn sound_for_rejection(reason: MoveRejection) -> (sound: SoundType)
    ensures
        sound == cue_for(reason),
{
    match reason {
        MoveRejection::BlockedByWall => SoundType::Oof,
        MoveRejection::BlockedByBox => SoundType::BarrelOof,
    }
}

/// The file that holds a cue, for the cues that have one.
pub open spec fn sound_file(sound_type: SoundType) -> Option<Seq<char>> {
    match sound_type {
        SoundType::Oof => Some("src\\oof.mp3"@),
        SoundType::BarrelMove => Some("src\\metal-moving.mp3"@),
        SoundType::BarrelOof => Some("src\\box-crash.mp3"@),
        _ => None,
    }
}

/// The path of the file that holds `sound_type`, if it has one.
pub fn sound_path(sound_type: SoundType) -> (path: Option<&'static str>)
    ensures
        match path {
            Some(p) => sound_file(sound_type) == Some(p@),
            None => sound_file(sound_type) is None,
        },
{
    match sound_type {
        SoundType::Oof => Some("src\\oof.mp3"),
        SoundType::BarrelMove => Some("src\\metal-moving.mp3"),
        SoundType::BarrelOof => Some("src\\box-crash.mp3"),
        _ => None,
    }
}

} // verus!
