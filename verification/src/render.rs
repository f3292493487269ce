//! The board as text: one glyph per tile, one line per row.

use vstd::prelude::*;
use vstd::string::*;
use crate::board::{grid, Board, Tile};
use crate::coords::LETTER_MAP;

verus! {

/// The line above the rows, which numbers the columns.
pub const COLUMN_HEADER: &'static str = "   0  1  2  3  4  5  6  7";

/// The characters that show a tile: `X` for a dark man and `0` for a light
/// one, the same letters with a mark above for the kings, a blank for an
/// empty square.
pub open spec fn glyph(tile: Tile) -> Seq<char> {
    match tile {
        Tile::Cross => seq!['X'],
        Tile::CrossKing => seq!['X', '\u{302}'],
        Tile::Circle => seq!['0'],
        Tile::CircleKing => seq!['\u{14c}'],
        Tile::Empty => seq![' '],
    }
}

/// Return the String representation of a tile.
pub fn tile_to_string(tile: Tile) -> (out: String)
    ensures
        out@ == glyph(tile),
{
    proof {
        reveal_strlit("X");
        reveal_strlit("X\u{302}");
        reveal_strlit("0");
        reveal_strlit("\u{14c}");
        reveal_strlit(" ");
    }
    let text = match tile {
        Tile::Cross => "X",
        Tile::CrossKing => "X\u{302}",
        Tile::Circle => "0",
        Tile::CircleKing => "\u{14c}",
        Tile::Empty => " ",
    };
    assert(text@ =~= glyph(tile));
    String::from_str(text)
}

/// The first `count` squares of a row, each as its glyph in brackets.
pub open spec fn cells_text(squares: Map<(int, int), Tile>, row: int, count: int) -> Seq<char>
    decreases count,
{
    if count <= 0 {
        Seq::empty()
    } else {
        cells_text(squares, row, count - 1) + seq!['['] + glyph(squares[(row, count - 1)]) + seq![
            ']',
        ]
    }
}

/// A row as text: its letter, a blank, and its eight squares.
pub open spec fn row_text(squares: Map<(int, int), Tile>, row: int) -> Seq<char> {
    seq![LETTER_MAP[row], ' '] + cells_text(squares, row, 8)
}

fn row_label(row: usize) -> (out: &'static str)
    requires
        row < 8,
    ensures
        out@ == seq![LETTER_MAP[row as int], ' '],
{
    proof {
        reveal_strlit("A ");
        reveal_strlit("B ");
        reveal_strlit("C ");
        reveal_strlit("D ");
        reveal_strlit("E ");
        reveal_strlit("F ");
        reveal_strlit("G ");
        reveal_strlit("H ");
    }
    let out = match row {
        0 => "A ",
        1 => "B ",
        2 => "C ",
        3 => "D ",
        4 => "E ",
        5 => "F ",
        6 => "G ",
        _ => "H ",
    };
    assert(out@ =~= seq![LETTER_MAP[row as int], ' ']);
    out
}

/// The text of one row of the board.
pub fn row_to_string(board: &Board, row: usize) -> (out: String)
    requires
        row < 8,
    ensures
        out@ == row_text(grid(*board), row as int),
{
    let mut line = String::from_str(row_label(row));
    let mut x: usize = 0;
    while x < 8
        invariant
            row < 8,
            x <= 8,
            line@ == seq![LETTER_MAP[row as int], ' '] + cells_text(
                grid(*board),
                row as int,
                x as int,
            ),
        decreases 8 - x,
    {
        let symbol = tile_to_string(board[row][x]);
        line.append("[");
        line.append(symbol.as_str());
        line.append("]");
        assert(line@ =~= seq![LETTER_MAP[row as int], ' '] + (cells_text(
            grid(*board),
            row as int,
            x as int,
        ) + seq!['['] + glyph(grid(*board)[(row as int, x as int)]) + seq![']'])) by {
            reveal_strlit("[");
            reveal_strlit("]");
            assert("["@ =~= seq!['[']);
            assert("]"@ =~= seq![']']);
        }
        x += 1;
    }
    line
}

/// The board as the lines to print: the column header, then the rows from
/// A to H.
pub fn render_board(board: &Board) -> (lines: Vec<String>)
    ensures
        lines@.len() == 9,
        lines@[0]@ == COLUMN_HEADER@,
        forall|row: int| 0 <= row < 8 ==> (#[trigger] lines@[row + 1])@ == row_text(grid(*board), row),
{
    let mut lines: Vec<String> = Vec::new();
    lines.push(String::from_str(COLUMN_HEADER));
    let mut y: usize = 0;
    while y < 8
        invariant
            y <= 8,
            lines@.len() == y + 1,
            lines@[0]@ == COLUMN_HEADER@,
            forall|row: int|
                0 <= row < y ==> (#[trigger] lines@[row + 1])@ == row_text(grid(*board), row),
        decreases 8 - y,
    {
        lines.push(row_to_string(board, y));
        y += 1;
    }
    lines
}

} // verus!
