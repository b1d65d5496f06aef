use sokoban::level::Level;
use sokoban::render::{notice_rows, push_decimal, push_str, render};
use sokoban::session::{startup, Notice};
use sokoban::input::Command;
use sokoban::moves::MoveDirection;

fn lines(rows: Vec<Vec<char>>) -> Vec<String> {
    rows.iter().map(|row| row.iter().collect()).collect()
}

fn decimal(n: i32) -> String {
    let mut text = Vec::new();
    push_decimal(&mut text, n);
    text.iter().collect()
}

#[test]
fn welcome_is_one_row() {
    assert_eq!(
        lines(render(&startup())),
        vec!["Welcome! Press \"m\" to go to level select."]
    );
}

#[test]
fn menu_lists_the_levels() {
    let mut game_state = startup();
    game_state.choose_level();
    assert_eq!(
        lines(render(&game_state)),
        vec!["Choose level:", "1 - Tutorial", "2 - Easy", "3 - Medium", "4 - Hard"]
    );
}

#[test]
fn board_is_drawn_row_by_row() {
    let mut game_state = startup();
    game_state.start_level(Level::One);
    assert_eq!(lines(render(&game_state)), vec!["#####", "#   #", "#.$@#", "#   #", "#####"]);
    game_state.execute(Command::Move(MoveDirection::Up));
    assert_eq!(lines(render(&game_state)), vec!["#####", "#  @#", "#.$ #", "#   #", "#####"]);
}

#[test]
fn ragged_board_keeps_each_row_its_length() {
    let mut game_state = startup();
    game_state.start_level(Level::Two);
    let rows = lines(render(&game_state));
    assert_eq!(rows.len(), 10);
    assert_eq!(rows[0], "     ####");
    assert_eq!(rows[4], "#@ #######");
    assert_eq!(rows[9], " #####");
}

#[test]
fn win_with_a_record_is_told() {
    let mut game_state = startup();
    game_state.start_level(Level::One);
    game_state.execute(Command::Move(MoveDirection::Left));
    assert_eq!(
        lines(render(&game_state)),
        vec!["You won! New record - you completed this level in 1 moves. Your lowest number of moves for this level previously was 0. Press \"m\" to go back to the main menu."]
    );
}

#[test]
fn win_without_a_record_is_told() {
    assert_eq!(
        lines(notice_rows(Notice::Solved { moves: 12, best: 7, new_record: false })),
        vec!["You won! You completed this level in 12 moves. Your lowest number of moves for this level is 7. Press \"m\" to go back to the main menu."]
    );
}

#[test]
fn win_with_a_better_count_is_told() {
    assert_eq!(
        lines(notice_rows(Notice::Solved { moves: 105, best: 2040, new_record: true })),
        vec!["You won! New record - you completed this level in 105 moves. Your lowest number of moves for this level previously was 2040. Press \"m\" to go back to the main menu."]
    );
}

#[test]
fn numbers_are_written_in_decimal() {
    assert_eq!(decimal(0), "0");
    assert_eq!(decimal(7), "7");
    assert_eq!(decimal(10), "10");
    assert_eq!(decimal(28), "28");
    assert_eq!(decimal(1090), "1090");
    assert_eq!(decimal(i32::MAX), "2147483647");
    assert_eq!(decimal(-1), "-1");
    assert_eq!(decimal(-305), "-305");
    assert_eq!(decimal(i32::MIN), "-2147483648");
}

#[test]
fn text_is_added_at_the_end() {
    let mut text = vec!['a'];
    push_str(&mut text, "bc");
    push_decimal(&mut text, 42);
    push_str(&mut text, "");
    push_str(&mut text, "é!");
    assert_eq!(text, vec!['a', 'b', 'c', '4', '2', 'é', '!']);
}
