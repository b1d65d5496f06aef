use sokoban::moves::MoveRejection;
use sokoban::sound::{sound_for_rejection, sound_path, SoundType};

#[test]
fn each_refusal_has_its_cue() {
    assert_eq!(sound_for_rejection(MoveRejection::BlockedByWall), SoundType::Oof);
    assert_eq!(sound_for_rejection(MoveRejection::BlockedByBox), SoundType::BarrelOof);
}

#[test]
fn cues_in_use_have_their_files() {
    assert_eq!(sound_path(SoundType::Oof), Some("src\\oof.mp3"));
    assert_eq!(sound_path(SoundType::BarrelOof), Some("src\\box-crash.mp3"));
    assert_eq!(sound_path(SoundType::BarrelMove), Some("src\\metal-moving.mp3"));
}

#[test]
fn cues_kept_for_later_have_no_file() {
    assert_eq!(sound_path(SoundType::BarrelCorrect), None);
    assert_eq!(sound_path(SoundType::WinGame), None);
    assert_eq!(sound_path(SoundType::PlayerMove), None);
}
