//! The text that shows the grid on a terminal.
//!
//! The terminal is in raw mode while the game runs: a line feed moves the
//! cursor down and leaves it in its column, so each line of the grid begins
//! with the code that moves the cursor back to the left.

use crate::grid::{grid_size, grid_view, Cell, Grid, FOOD, SNAKE};
use vstd::prelude::*;
use vstd::string::*;

verus! {

/// How far left the cursor is moved after the status message.
pub const MESSAGE_WIDTH: u16 = 30;

/// The character that introduces a control code of the terminal.
pub const ESCAPE: char = '\x1B';

/// The character of which the upper border is made.
pub const TOP_BORDER: char = '\u{23AF}';

/// The character of which the lower border is made.
pub const BOTTOM_BORDER: char = '\u{23BA}';

/// The character that shows a cell of the snake.
pub const SNAKE_GLYPH: char = '\u{25AE}';

/// The character that shows a cell of food.
pub const FOOD_GLYPH: char = '\u{2738}';

/// The character of a digit.
pub open spec fn digit_char(digit: nat) -> char {
    seq!['0', '1', '2', '3', '4', '5', '6', '7', '8', '9'][digit as int]
}

/// A number written in decimal digits, without leading zeros.
pub open spec fn decimal(n: nat) -> Seq<char>
    decreases n,
{
    if n < 10 {
        seq![digit_char(n)]
    } else {
        decimal(n / 10).push(digit_char(n % 10))
    }
}

/// The code that clears the whole screen.
pub open spec fn clear_all_code() -> Seq<char> {
    seq![ESCAPE, '[', '2', 'J']
}

/// The code that hides the cursor.
pub open spec fn cursor_hide_code() -> Seq<char> {
    seq![ESCAPE, '[', '?', '2', '5', 'l']
}

/// The code that puts the cursor in column `x` of line `y`, both counted
/// from one.
pub open spec fn cursor_goto_code(x: u16, y: u16) -> Seq<char> {
    seq![ESCAPE, '['] + decimal(y as nat) + seq![';'] + decimal(x as nat) + seq!['H']
}

/// The code that moves the cursor left by `n` columns.
pub open spec fn cursor_left_code(n: u16) -> Seq<char> {
    seq![ESCAPE, '['] + decimal(n as nat) + seq!['D']
}

/// Formats `termion::clear::All`. Claimed: the text is the escape
/// character followed by `[2J`, as the crate's source has it.
#[verifier::external_body]
fn clear_all() -> (code: String)
    ensures
        code@ == clear_all_code(),
{
    format!("{}", termion::clear::All)
}

/// Formats `termion::cursor::Hide`. Claimed: the text is the escape
/// character followed by `[?25l`, as the crate's source has it.
#[verifier::external_body]
fn cursor_hide() -> (code: String)
    ensures
        code@ == cursor_hide_code(),
{
    format!("{}", termion::cursor::Hide)
}

/// Formats `termion::cursor::Goto`, which panics in a debug build where
/// both coordinates are zero. Claimed: the text is the escape character,
/// `[`, the line in decimal, `;`, the column in decimal and `H`.
#[verifier::external_body]
fn cursor_goto(x: u16, y: u16) -> (code: String)
    requires
        x != 0 || y != 0,
    ensures
        code@ == cursor_goto_code(x, y),
{
    format!("{}", termion::cursor::Goto(x, y))
}

/// Formats `termion::cursor::Left`. Claimed: the text is the escape
/// character, `[`, the number of columns in decimal and `D`.
#[verifier::external_body]
fn cursor_left(n: u16) -> (code: String)
    ensures
        code@ == cursor_left_code(n),
{
    format!("{}", termion::cursor::Left(n))
}

/// The character that shows a cell: one for the snake, one for food, a
/// blank for anything else.
pub open spec fn glyph(cell: Cell) -> char {
    if cell == SNAKE {
        SNAKE_GLYPH
    } else if cell == FOOD {
        FOOD_GLYPH
    } else {
        ' '
    }
}

/// A border line: one character repeated.
pub open spec fn border(width: nat, ch: char) -> Seq<char> {
    Seq::new(width, |i: int| ch)
}

/// The line of one row: a bar, the characters of the cells, a bar and a line
/// feed.
pub open spec fn row_text(row: Seq<Cell>) -> Seq<char> {
    seq!['|'] + Seq::new(row.len(), |c: int| glyph(row[c])) + seq!['|', '\n']
}

/// The lines of the rows, each after the code that moves the cursor left.
pub open spec fn rows_text(g: Seq<Seq<Cell>>, left: Seq<char>) -> Seq<char>
    decreases g.len(),
{
    if g.len() == 0 {
        Seq::empty()
    } else {
        rows_text(g.drop_last(), left) + left + row_text(g.last())
    }
}

/// The text that shows a grid: the upper border and a line feed, the rows,
/// and the lower border after one more move of the cursor to the left. The
/// borders are two characters wider than the first row, for the bars at the
/// sides.
pub open spec fn grid_text(g: Seq<Seq<Cell>>) -> Seq<char> {
    let width = g[0].len() + 2;
    let left = cursor_left_code(width as u16);
    border(width as nat, TOP_BORDER) + seq!['\n'] + rows_text(g, left) + left + border(
        width as nat,
        BOTTOM_BORDER,
    )
}

/// The text of a whole frame: the screen is cleared, the cursor put in the
/// upper left corner, the message written on a line of its own, the cursor
/// hidden and the grid drawn.
pub open spec fn frame_text(message: Seq<char>, g: Seq<Seq<Cell>>) -> Seq<char> {
    clear_all_code() + cursor_goto_code(1, 1) + message + seq!['\n'] + cursor_left_code(
        MESSAGE_WIDTH,
    ) + cursor_hide_code() + grid_text(g)
}

/// The character that shows a cell, as a string.
pub fn glyph_str(cell: Cell) -> (text: &'static str)
    ensures
        text@ == seq![glyph(cell)],
{
    proof {
        reveal_strlit("\u{25AE}");
        reveal_strlit("\u{2738}");
        reveal_strlit(" ");
    }
    if cell == SNAKE {
        "\u{25AE}"
    } else if cell == FOOD {
        "\u{2738}"
    } else {
        " "
    }
}

/// Appends a border line to a text.
fn append_border(text: &mut String, width: usize, top: bool)
    ensures
        final(text)@ == old(text)@ + border(
            width as nat,
            if top {
                TOP_BORDER
            } else {
                BOTTOM_BORDER
            },
        ),
{
    let ghost ch = if top {
        TOP_BORDER
    } else {
        BOTTOM_BORDER
    };
    let piece = if top {
        "\u{23AF}"
    } else {
        "\u{23BA}"
    };
    proof {
        reveal_strlit("\u{23AF}");
        reveal_strlit("\u{23BA}");
    }
    let mut i: usize = 0;
    while i < width
        invariant
            i <= width,
            piece@ == seq![ch],
            text@ == old(text)@ + border(i as nat, ch),
        decreases width - i,
    {
        text.append(piece);
        i = i + 1;
    }
}

/// Appends the line of one row to a text.
fn append_row(text: &mut String, row: &Vec<Cell>)
    ensures
        final(text)@ == old(text)@ + row_text(row@),
{
    proof {
        reveal_strlit("|");
        reveal_strlit("|\n");
    }
    text.append("|");
    let mut c: usize = 0;
    while c < row.len()
        invariant
            c <= row.len(),
            text@ == old(text)@ + seq!['|'] + Seq::new(c as nat, |i: int| glyph(row@[i])),
        decreases row.len() - c,
    {
        text.append(glyph_str(row[c]));
        c = c + 1;
    }
    text.append("|\n");
}

/// Appends the text that shows a grid to a text.
fn append_grid(text: &mut String, grid: &Grid)
    requires
        grid@.len() > 0,
        grid_view(grid)[0].len() + 2 <= u16::MAX,
    ensures
        final(text)@ == old(text)@ + grid_text(grid_view(grid)),
{
    let ncols = grid_size(grid).1 + 2;
    let left = cursor_left(ncols as u16);
    proof {
        reveal_strlit("\n");
    }
    append_border(text, ncols, true);
    text.append("\n");
    let ghost start = text@;
    let mut r: usize = 0;
    while r < grid.len()
        invariant
            r <= grid.len(),
            text@ == start + rows_text(grid_view(grid).take(r as int), left@),
        decreases grid.len() - r,
    {
        text.append(left.as_str());
        append_row(text, &grid[r]);
        proof {
            let done = grid_view(grid).take(r + 1);
            assert(done.drop_last() == grid_view(grid).take(r as int));
        }
        r = r + 1;
    }
    assert(grid_view(grid).take(r as int) == grid_view(grid));
    text.append(left.as_str());
    append_border(text, ncols, false);
}

/// The text that shows a grid on the terminal.
pub fn render_grid(grid: &Grid) -> (text: String)
    requires
        grid@.len() > 0,
        grid_view(grid)[0].len() + 2 <= u16::MAX,
    ensures
        text@ == grid_text(grid_view(grid)),
{
    let mut text = String::new();
    append_grid(&mut text, grid);
    text
}

/// The text of a whole frame: what is written to the terminal to show a
/// message and the grid in place of what was there.
pub fn render_frame(message: &str, grid: &Grid) -> (text: String)
    requires
        grid@.len() > 0,
        grid_view(grid)[0].len() + 2 <= u16::MAX,
    ensures
        text@ == frame_text(message@, grid_view(grid)),
{
    proof {
        reveal_strlit("\n");
    }
    let mut text = clear_all();
    text.append(cursor_goto(1, 1).as_str());
    text.append(message);
    text.append("\n");
    text.append(cursor_left(MESSAGE_WIDTH).as_str());
    text.append(cursor_hide().as_str());
    append_grid(&mut text, grid);
    text
}

} // verus!
