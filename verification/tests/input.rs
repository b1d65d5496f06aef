use sokoban::input::{read_input, Command, KeyCode, KeyEvent, KeyEventKind};
use sokoban::level::Level;
use sokoban::moves::MoveDirection;

fn press(c: char) -> KeyEvent {
    KeyEvent { code: KeyCode::Char(c), kind: KeyEventKind::Press }
}

#[test]
fn keys_stand_for_their_commands() {
    assert_eq!(read_input(press('q')), Some(Command::Quit));
    assert_eq!(read_input(press('m')), Some(Command::LevelChoose));
    assert_eq!(read_input(press('w')), Some(Command::Move(MoveDirection::Up)));
    assert_eq!(read_input(press('a')), Some(Command::Move(MoveDirection::Left)));
    assert_eq!(read_input(press('s')), Some(Command::Move(MoveDirection::Down)));
    assert_eq!(read_input(press('d')), Some(Command::Move(MoveDirection::Right)));
    assert_eq!(read_input(press('r')), Some(Command::Reset));
    assert_eq!(read_input(press('b')), Some(Command::ReverseMove));
    assert_eq!(read_input(press('1')), Some(Command::LevelSelect(Level::One)));
    assert_eq!(read_input(press('2')), Some(Command::LevelSelect(Level::Two)));
    assert_eq!(read_input(press('3')), Some(Command::LevelSelect(Level::Three)));
    assert_eq!(read_input(press('4')), Some(Command::LevelSelect(Level::Four)));
    assert_eq!(read_input(press('5')), Some(Command::LevelSelect(Level::Five)));
}

#[test]
fn other_keys_stand_for_nothing() {
    assert_eq!(read_input(press('x')), None);
    assert_eq!(read_input(press('0')), None);
    assert_eq!(read_input(press('6')), None);
    assert_eq!(read_input(press(' ')), None);
    assert_eq!(read_input(KeyEvent { code: KeyCode::Other, kind: KeyEventKind::Press }), None);
}

#[test]
fn keys_are_case_sensitive() {
    for c in ['Q', 'M', 'W', 'A', 'S', 'D', 'R', 'B'] {
        assert_eq!(read_input(press(c)), None);
    }
}

#[test]
fn release_and_repeat_are_ignored() {
    for c in ['q', 'm', 'w', 'a', 's', 'd', 'r', 'b', '1', '5'] {
        assert_eq!(read_input(KeyEvent { code: KeyCode::Char(c), kind: KeyEventKind::Release }), None);
        assert_eq!(read_input(KeyEvent { code: KeyCode::Char(c), kind: KeyEventKind::Repeat }), None);
    }
}
