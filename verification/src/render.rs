//! What the screen shows, as rows of characters: the board while a level
//! is played, a notice while none is.

use vstd::prelude::*;
use crate::cell::Cell;
use crate::grid::Grid;
use crate::session::{GameState, GameView, Notice};

verus! {

/// The glyphs of a row of cells, in order.
pub open spec fn row_glyphs(row: Seq<Cell>) -> Seq<char> {
    Seq::new(row.len(), |i: int| row[i].spec_glyph())
}

/// The text of a board: one row of glyphs for each row of cells, top row first.
pub open spec fn grid_glyphs(g: Seq<Seq<Cell>>) -> Seq<Seq<char>> {
    Seq::new(g.len(), |i: int| row_glyphs(g[i]))
}

/// The character of one decimal digit.
pub open spec fn digit_glyph(d: int) -> char
    recommends
        0 <= d < 10,
{
    if d == 0 {
        '0'
    } else if d == 1 {
        '1'
    } else if d == 2 {
        '2'
    } else if d == 3 {
        '3'
    } else if d == 4 {
        '4'
    } else if d == 5 {
        '5'
    } else if d == 6 {
        '6'
    } else if d == 7 {
        '7'
    } else if d == 8 {
        '8'
    } else {
        '9'
    }
}

/// The decimal digits of a natural number, the highest first, with no
/// leading zero but for 0 itself.
pub open spec fn digits(n: nat) -> Seq<char>
    decreases n,
{
    if n < 10 {
        seq![digit_glyph(n as int)]
    } else {
        digits(n / 10).push(digit_glyph((n % 10) as int))
    }
}

/// A whole number written in decimal, with a minus sign where it is negative.
pub open spec fn decimal(n: int) -> Seq<char> {
    if n < 0 {
        seq!['-'] + digits((-n) as nat)
    } else {
        digits(n as nat)
    }
}

/// The one row that tells of a solved level.
pub open spec fn solved_text(moves: i32, best: i32, new_record: bool) -> Seq<char> {
    if new_record {
        "You won! New record - you completed this level in "@ + decimal(moves as int)
            + " moves. Your lowest number of moves for this level previously was "@ + decimal(
            best as int,
        ) + ". Press \"m\" to go back to the main menu."@
    } else {
        "You won! You completed this level in "@ + decimal(moves as int)
            + " moves. Your lowest number of moves for this level is "@ + decimal(best as int)
            + ". Press \"m\" to go back to the main menu."@
    }
}

/// The rows of a notice.
pub open spec fn notice_text(notice: Notice) -> Seq<Seq<char>> {
    match notice {
        Notice::Welcome => seq!["Welcome! Press \"m\" to go to level select."@],
        Notice::LevelMenu => seq![
            "Choose level:"@,
            "1 - Tutorial"@,
            "2 - Easy"@,
            "3 - Medium"@,
            "4 - Hard"@,
        ],
        Notice::Solved { moves, best, new_record } => seq![solved_text(moves, best, new_record)],
    }
}

/// What the screen shows: while a level is played one row of glyphs for
/// each row of the board, top row first; else the rows of the notice.
pub open spec fn screen_text(s: GameView) -> Seq<Seq<char>> {
    if s.level is Some {
        grid_glyphs(s.grid)
    } else {
        notice_text(s.notice)
    }
}

fn digit_char(d: u64) -> (c: char)
    requires
        d < 10,
    ensures
        c == digit_glyph(d as int),
{
    if d == 0 {
        '0'
    } else if d == 1 {
        '1'
    } else if d == 2 {
        '2'
    } else if d == 3 {
        '3'
    } else if d == 4 {
        '4'
    } else if d == 5 {
        '5'
    } else if d == 6 {
        '6'
    } else if d == 7 {
        '7'
    } else if d == 8 {
        '8'
    } else {
        '9'
    }
}

fn push_digits(text: &mut Vec<char>, n: u64)
    ensures
        final(text)@ == old(text)@ + digits(n as nat),
    decreases n,
{
    if n >= 10 {
        push_digits(text, n / 10);
    }
    text.push(digit_char(n % 10));
}

/// Adds `n`, written in decimal, to the end of `text`.
pub fn push_decimal(text: &mut Vec<char>, n: i32)
    ensures
        final(text)@ == old(text)@ + decimal(n as int),
{
    if n < 0 {
        text.push('-');
        let magnitude: i64 = -(n as i64);
        push_digits(text, magnitude as u64);
    } else {
        push_digits(text, n as u64);
    }
}

/// Adds the characters of `s` to the end of `text`.
pub fn push_str(text: &mut Vec<char>, s: &str)
    ensures
        final(text)@ == old(text)@ + s@,
{
    let n = s.unicode_len();
    let mut i: usize = 0;
    while i < n
        invariant
            n == s@.len(),
            i <= n,
            text@ == old(text)@ + s@.subrange(0, i as int),
        decreases n - i,
    {
        text.push(s.get_char(i));
        i += 1;
    }
}

/// The glyphs of each row of `grid`, top row first.
pub fn grid_rows(grid: &Grid) -> (rows: Vec<Vec<char>>)
    ensures
        rows@.len() == grid@.len(),
        forall|y: int| 0 <= y < rows@.len() ==> (#[trigger] rows@[y])@ == row_glyphs(grid@[y]),
{
    let height = grid.height();
    let mut rows: Vec<Vec<char>> = Vec::new();
    let mut y: usize = 0;
    while y < height
        invariant
            height == grid@.len(),
            y <= height,
            rows@.len() == y,
            forall|j: int| 0 <= j < y ==> (#[trigger] rows@[j])@ == row_glyphs(grid@[j]),
        decreases height - y,
    {
        let width = grid.row_len(y);
        let mut row: Vec<char> = Vec::new();
        let mut x: usize = 0;
        while x < width
            invariant
                y < height,
                height == grid@.len(),
                width == grid@[y as int].len(),
                x <= width,
                row@.len() == x,
                forall|i: int| 0 <= i < x ==> #[trigger] row@[i] == grid@[y as int][i].spec_glyph(),
            decreases width - x,
        {
            row.push(grid.cell_by_index(x, y).glyph());
            x += 1;
        }
        assert(row@ =~= row_glyphs(grid@[y as int]));
        rows.push(row);
        y += 1;
    }
    rows
}

fn line(s: &str) -> (row: Vec<char>)
    ensures
        row@ == s@,
{
    let mut row: Vec<char> = Vec::new();
    push_str(&mut row, s);
    row
}

/// The rows of `notice`.
pub fn notice_rows(notice: Notice) -> (rows: Vec<Vec<char>>)
    ensures
        rows@.len() == notice_text(notice).len(),
        forall|y: int| 0 <= y < rows@.len() ==> (#[trigger] rows@[y])@ == notice_text(notice)[y],
{
    let mut rows: Vec<Vec<char>> = Vec::new();
    match notice {
        Notice::Welcome => {
            rows.push(line("Welcome! Press \"m\" to go to level select."));
        },
        Notice::LevelMenu => {
            rows.push(line("Choose level:"));
            rows.push(line("1 - Tutorial"));
            rows.push(line("2 - Easy"));
            rows.push(line("3 - Medium"));
            rows.push(line("4 - Hard"));
        },
        Notice::Solved { moves, best, new_record } => {
            let mut row: Vec<char> = Vec::new();
            if new_record {
                push_str(&mut row, "You won! New record - you completed this level in ");
                push_decimal(&mut row, moves);
                push_str(
                    &mut row,
                    " moves. Your lowest number of moves for this level previously was ",
                );
            } else {
                push_str(&mut row, "You won! You completed this level in ");
                push_decimal(&mut row, moves);
                push_str(&mut row, " moves. Your lowest number of moves for this level is ");
            }
            push_decimal(&mut row, best);
            push_str(&mut row, ". Press \"m\" to go back to the main menu.");
            assert(row@ =~= solved_text(moves, best, new_record));
            rows.push(row);
        },
    }
    rows
}

/// The rows that the screen shows for `game_state`.
pub fn render(game_state: &GameState) -> (rows: Vec<Vec<char>>)
    ensures
        rows@.len() == screen_text(game_state@).len(),
        forall|y: int|
            0 <= y < rows@.len() ==> (#[trigger] rows@[y])@ == screen_text(game_state@)[y],
{
    match game_state.level() {
        Some(_) => grid_rows(game_state.grid()),
        None => notice_rows(game_state.notice()),
    }
}

} // verus!
