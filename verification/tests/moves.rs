use sokoban::cell::Cell;
use sokoban::grid::{set_grid_cell, Grid};
use sokoban::moves::{next_position, resolve_move, MoveDirection, MoveRejection};
use sokoban::render::grid_rows;

fn board(rows: &[&str]) -> Grid {
    Grid::new(
        rows.iter()
            .map(|row| row.chars().map(|c| Cell::from_glyph(c).unwrap()).collect())
            .collect(),
    )
}

fn text(grid: &Grid) -> Vec<String> {
    grid_rows(grid).iter().map(|row| row.iter().collect()).collect()
}

fn player_cells(grid: &Grid) -> usize {
    text(grid).iter().map(|row| row.chars().filter(|c| *c == '@' || *c == '+').count()).sum()
}

#[test]
fn step_onto_floor_moves_the_player() {
    let mut grid = board(&["#####", "#@  #", "#####"]);
    assert_eq!(resolve_move(&mut grid, (1, 1), MoveDirection::Right), Ok((2, 1)));
    assert_eq!(text(&grid), vec!["#####", "# @ #", "#####"]);
}

#[test]
fn step_onto_target_puts_the_player_on_it() {
    let mut grid = board(&["#@.#"]);
    assert_eq!(resolve_move(&mut grid, (1, 0), MoveDirection::Right), Ok((2, 0)));
    assert_eq!(text(&grid), vec!["# +#"]);
}

#[test]
fn leaving_a_target_shows_it_again() {
    let mut grid = board(&["#+ #"]);
    assert_eq!(resolve_move(&mut grid, (1, 0), MoveDirection::Right), Ok((2, 0)));
    assert_eq!(text(&grid), vec!["#.@#"]);
}

#[test]
fn wall_refuses_the_player_in_every_direction() {
    let rows = ["###", "#@#", "###"];
    for direction in
        [MoveDirection::Up, MoveDirection::Right, MoveDirection::Down, MoveDirection::Left]
    {
        let mut grid = board(&rows);
        assert_eq!(resolve_move(&mut grid, (1, 1), direction), Err(MoveRejection::BlockedByWall));
        assert_eq!(text(&grid), rows.to_vec());
    }
}

#[test]
fn push_moves_the_box_one_cell() {
    let mut grid = board(&["#@$ #"]);
    assert_eq!(resolve_move(&mut grid, (1, 0), MoveDirection::Right), Ok((2, 0)));
    assert_eq!(text(&grid), vec!["# @$#"]);
}

#[test]
fn push_onto_target_marks_the_box() {
    let mut grid = board(&["#@$.#"]);
    assert_eq!(resolve_move(&mut grid, (1, 0), MoveDirection::Right), Ok((2, 0)));
    assert_eq!(text(&grid), vec!["# @*#"]);
}

#[test]
fn push_off_a_target_leaves_the_player_on_it() {
    let mut grid = board(&["#@* #"]);
    assert_eq!(resolve_move(&mut grid, (1, 0), MoveDirection::Right), Ok((2, 0)));
    assert_eq!(text(&grid), vec!["# +$#"]);
}

#[test]
fn push_from_target_to_target() {
    let mut grid = board(&["+*."]);
    assert_eq!(resolve_move(&mut grid, (0, 0), MoveDirection::Right), Ok((1, 0)));
    assert_eq!(text(&grid), vec![".+*"]);
}

#[test]
fn push_up_and_down() {
    let mut grid = board(&[" ", "$", "@", "$", "."]);
    assert_eq!(resolve_move(&mut grid, (0, 2), MoveDirection::Up), Ok((0, 1)));
    assert_eq!(text(&grid), vec!["$", "@", " ", "$", "."]);
    assert_eq!(resolve_move(&mut grid, (0, 1), MoveDirection::Down), Ok((0, 2)));
    assert_eq!(resolve_move(&mut grid, (0, 2), MoveDirection::Down), Ok((0, 3)));
    assert_eq!(text(&grid), vec!["$", " ", " ", "@", "*"]);
}

#[test]
fn box_against_a_box_refuses() {
    let rows = ["#@$$ #"];
    let mut grid = board(&rows);
    assert_eq!(resolve_move(&mut grid, (1, 0), MoveDirection::Right), Err(MoveRejection::BlockedByBox));
    assert_eq!(text(&grid), rows.to_vec());
}

#[test]
fn box_against_a_box_on_target_refuses() {
    let rows = ["#@$* #"];
    let mut grid = board(&rows);
    assert_eq!(resolve_move(&mut grid, (1, 0), MoveDirection::Right), Err(MoveRejection::BlockedByBox));
    assert_eq!(text(&grid), rows.to_vec());
}

#[test]
fn box_against_a_wall_refuses() {
    let rows = ["#@*#"];
    let mut grid = board(&rows);
    assert_eq!(resolve_move(&mut grid, (1, 0), MoveDirection::Right), Err(MoveRejection::BlockedByBox));
    assert_eq!(text(&grid), rows.to_vec());
}

#[test]
fn box_against_the_edge_refuses() {
    let rows = ["@$"];
    let mut grid = board(&rows);
    assert_eq!(resolve_move(&mut grid, (0, 0), MoveDirection::Right), Err(MoveRejection::BlockedByBox));
    assert_eq!(text(&grid), rows.to_vec());
    let rows = ["$", "@"];
    let mut grid = board(&rows);
    assert_eq!(resolve_move(&mut grid, (0, 1), MoveDirection::Up), Err(MoveRejection::BlockedByBox));
    assert_eq!(text(&grid), rows.to_vec());
}

#[test]
fn edge_absorbs_the_step() {
    let rows = ["@"];
    for direction in
        [MoveDirection::Up, MoveDirection::Right, MoveDirection::Down, MoveDirection::Left]
    {
        let mut grid = board(&rows);
        assert_eq!(resolve_move(&mut grid, (0, 0), direction), Ok((0, 0)));
        assert_eq!(text(&grid), rows.to_vec());
    }
}

#[test]
fn edge_absorbs_the_step_on_a_target() {
    let rows = [" +"];
    let mut grid = board(&rows);
    assert_eq!(resolve_move(&mut grid, (1, 0), MoveDirection::Right), Ok((1, 0)));
    assert_eq!(text(&grid), rows.to_vec());
}

#[test]
fn shorter_row_absorbs_the_step() {
    let rows = ["  @", " "];
    let mut grid = board(&rows);
    assert_eq!(resolve_move(&mut grid, (2, 0), MoveDirection::Down), Ok((2, 0)));
    assert_eq!(text(&grid), rows.to_vec());
    let rows = ["", "@"];
    let mut grid = board(&rows);
    assert_eq!(resolve_move(&mut grid, (0, 1), MoveDirection::Up), Ok((0, 1)));
    assert_eq!(text(&grid), rows.to_vec());
}

#[test]
fn rows_are_held_to_their_own_length() {
    let mut grid = board(&["@", "   "]);
    assert_eq!(resolve_move(&mut grid, (0, 0), MoveDirection::Right), Ok((0, 0)));
    assert_eq!(resolve_move(&mut grid, (0, 0), MoveDirection::Down), Ok((0, 1)));
    assert_eq!(resolve_move(&mut grid, (0, 1), MoveDirection::Right), Ok((1, 1)));
    assert_eq!(resolve_move(&mut grid, (1, 1), MoveDirection::Right), Ok((2, 1)));
    assert_eq!(resolve_move(&mut grid, (2, 1), MoveDirection::Right), Ok((2, 1)));
    assert_eq!(resolve_move(&mut grid, (2, 1), MoveDirection::Up), Ok((2, 1)));
    assert_eq!(text(&grid), vec![" ", "  @"]);
}

#[test]
fn box_behind_a_shorter_row_refuses() {
    let rows = ["  @", "  $", " "];
    let mut grid = board(&rows);
    assert_eq!(resolve_move(&mut grid, (2, 0), MoveDirection::Down), Err(MoveRejection::BlockedByBox));
    assert_eq!(text(&grid), rows.to_vec());
}

#[test]
fn next_position_steps_inside_the_board() {
    let grid = board(&["   ", " @ ", "   "]);
    assert_eq!(next_position(MoveDirection::Up, (1, 1), &grid), (1, 0));
    assert_eq!(next_position(MoveDirection::Right, (1, 1), &grid), (2, 1));
    assert_eq!(next_position(MoveDirection::Down, (1, 1), &grid), (1, 2));
    assert_eq!(next_position(MoveDirection::Left, (1, 1), &grid), (0, 1));
}

#[test]
fn next_position_stays_at_the_edge() {
    let grid = board(&["   ", "   "]);
    assert_eq!(next_position(MoveDirection::Up, (1, 0), &grid), (1, 0));
    assert_eq!(next_position(MoveDirection::Left, (0, 1), &grid), (0, 1));
    assert_eq!(next_position(MoveDirection::Right, (2, 1), &grid), (2, 1));
    assert_eq!(next_position(MoveDirection::Down, (1, 1), &grid), (1, 1));
}

#[test]
fn next_position_of_a_position_off_the_board() {
    let grid = board(&["   "]);
    assert_eq!(next_position(MoveDirection::Left, (3, 0), &grid), (2, 0));
    assert_eq!(next_position(MoveDirection::Right, (3, 0), &grid), (3, 0));
    assert_eq!(next_position(MoveDirection::Right, (i32::MAX, 0), &grid), (i32::MAX, 0));
    assert_eq!(next_position(MoveDirection::Left, (i32::MIN, 0), &grid), (i32::MIN, 0));
    assert_eq!(next_position(MoveDirection::Up, (0, i32::MIN), &grid), (0, i32::MIN));
    assert_eq!(next_position(MoveDirection::Down, (0, i32::MAX), &grid), (0, i32::MAX));
    assert_eq!(next_position(MoveDirection::Down, (0, -1), &grid), (0, 0));
}

#[test]
fn a_move_keeps_exactly_one_player() {
    let rows = ["#######", "#  .  #", "# $@$ #", "#  *  #", "#  .  #", "#######"];
    for direction in
        [MoveDirection::Up, MoveDirection::Right, MoveDirection::Down, MoveDirection::Left]
    {
        let mut grid = board(&rows);
        assert_eq!(player_cells(&grid), 1);
        let moved = resolve_move(&mut grid, (3, 2), direction).unwrap();
        assert_eq!(player_cells(&grid), 1);
        assert!(grid.get(moved).unwrap() == Cell::Player || grid.get(moved).unwrap() == Cell::PlayerOnTarget);
    }
}

#[test]
fn a_step_and_the_step_back_restore_the_board() {
    let rows = ["#####", "#@ .#", "#####"];
    let mut grid = board(&rows);
    assert_eq!(resolve_move(&mut grid, (1, 1), MoveDirection::Right), Ok((2, 1)));
    assert_eq!(resolve_move(&mut grid, (2, 1), MoveDirection::Right), Ok((3, 1)));
    assert_eq!(text(&grid), vec!["#####", "#  +#", "#####"]);
    assert_eq!(resolve_move(&mut grid, (3, 1), MoveDirection::Right.inverse()), Ok((2, 1)));
    assert_eq!(resolve_move(&mut grid, (2, 1), MoveDirection::Right.inverse()), Ok((1, 1)));
    assert_eq!(text(&grid), rows.to_vec());
}

#[test]
fn inverse_swaps_opposite_directions() {
    assert_eq!(MoveDirection::Up.inverse(), MoveDirection::Down);
    assert_eq!(MoveDirection::Down.inverse(), MoveDirection::Up);
    assert_eq!(MoveDirection::Left.inverse(), MoveDirection::Right);
    assert_eq!(MoveDirection::Right.inverse(), MoveDirection::Left);
}

#[test]
fn grid_reads_and_writes_by_position() {
    let mut grid = board(&["# ", ".$@"]);
    assert_eq!(grid.height(), 2);
    assert_eq!(grid.row_len(0), 2);
    assert_eq!(grid.row_len(1), 3);
    assert_eq!(grid.get((0, 0)), Some(Cell::Wall));
    assert_eq!(grid.get((2, 1)), Some(Cell::Player));
    assert_eq!(grid.get((2, 0)), None);
    assert_eq!(grid.get((0, 2)), None);
    assert_eq!(grid.get((-1, 0)), None);
    assert_eq!(grid.get((0, -1)), None);
    assert!(grid.contains((1, 0)));
    assert!(!grid.contains((2, 0)));
    assert_eq!(grid.cell((1, 1)), Cell::Box);
    assert_eq!(grid.cell_by_index(0, 1), Cell::Target);
    set_grid_cell(&mut grid, (1, 0), Cell::BoxOnTarget);
    assert_eq!(text(&grid), vec!["#*", ".$@"]);
}
