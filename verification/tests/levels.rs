use sokoban::cell::Cell;
use sokoban::level::Level;
use sokoban::render::grid_rows;
use sokoban::session::is_solved;

fn text(level: Level) -> Vec<String> {
    grid_rows(&level.start().0).iter().map(|row| row.iter().collect()).collect()
}

fn count(level: Level, glyphs: &str) -> usize {
    text(level).iter().map(|row| row.chars().filter(|c| glyphs.contains(*c)).count()).sum()
}

#[test]
fn level_one_starts_as_drawn() {
    assert_eq!(text(Level::One), vec!["#####", "#   #", "#.$@#", "#   #", "#####"]);
    assert_eq!(Level::One.start().1, (3, 2));
}

#[test]
fn level_two_starts_as_drawn() {
    assert_eq!(
        text(Level::Two),
        vec![
            "     ####",
            "######  #",
            "#       #",
            "#      .#",
            "#@ #######",
            "##       #",
            " # # #   #",
            " #     $ #",
            " #   #####",
            " #####",
        ]
    );
    assert_eq!(Level::Two.start().1, (1, 4));
}

#[test]
fn level_three_starts_as_drawn() {
    assert_eq!(
        text(Level::Three),
        vec![
            "#####  ####  #####",
            "#   ####  ####   #",
            "#                #",
            "##        ###   ##",
            " ## $  # .. $ @##",
            "##  ##   ####   ##",
            "#                #",
            "#   ##########   #",
            "#####        #####",
        ]
    );
    assert_eq!(Level::Three.start().1, (14, 4));
}

#[test]
fn level_four_starts_as_drawn() {
    assert_eq!(
        text(Level::Four),
        vec![
            " #####",
            "##   #",
            "#    ##",
            "#  #  #",
            "# $# .###",
            "#  #*.  #",
            "# $ $.  #",
            "#  #$.###",
            "#### .#",
            "  ##$.#",
            "  # $*#",
            "  #  @#",
            "  #####",
        ]
    );
    assert_eq!(Level::Four.start().1, (5, 11));
}

#[test]
fn level_five_starts_as_drawn() {
    assert_eq!(
        text(Level::Five),
        vec![
            " ####",
            "##  ###",
            "#     ###",
            "# #***. #",
            "#  *  # #",
            "#  *    #",
            "#  ***####",
            "####  *  #",
            " # *  *  #",
            " # $**   #",
            " #   @#  #",
            " #########",
        ]
    );
    assert_eq!(Level::Five.start().1, (5, 10));
}

#[test]
fn every_level_has_one_player_where_it_starts() {
    for level in [Level::One, Level::Two, Level::Three, Level::Four, Level::Five] {
        let (grid, position) = level.start();
        assert_eq!(count(level, "@+"), 1);
        assert_eq!(grid.get(position), Some(Cell::Player));
    }
}

#[test]
fn every_level_has_a_target_for_each_box() {
    for level in [Level::One, Level::Two, Level::Three, Level::Four, Level::Five] {
        assert!(count(level, "$") >= 1);
        assert_eq!(count(level, "$"), count(level, ".+"));
        assert!(!is_solved(&level.start().0));
    }
}

#[test]
fn levels_are_numbered_from_one() {
    assert_eq!(Level::One.number(), 1);
    assert_eq!(Level::Two.number(), 2);
    assert_eq!(Level::Three.number(), 3);
    assert_eq!(Level::Four.number(), 4);
    assert_eq!(Level::Five.number(), 5);
}
