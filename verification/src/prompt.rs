//! What a player types at a prompt: whether a line names a square in the
//! expected form, and whether the square it names can be the origin or the
//! destination of a move.

use vstd::prelude::*;
use vstd::string::*;
use regex::Regex;
use crate::board::{grid, king_version, on_board, out_of_bounds, Board, Side, Tile};
use crate::coords::{coords_of, readable, trim, trimmed, try_coords_from_string};

verus! {

/// The form of a coordinate: a letter from A to H in either case, then a
/// digit from 0 to 8.
pub const COORDINATE_PATTERN: &'static str = "[a-hA-H][0-8]";

/// Why a line was not accepted.
#[derive(Copy, Clone, PartialEq, Eq, Structural, Debug)]
pub enum InputError {
    /// The line does not have the form of a coordinate.
    Malformed,
    /// The coordinate is not on the board.
    OffBoard,
    /// The square does not hold a piece of the side to move.
    NotYourPiece,
    /// The square is not empty.
    Occupied,
    /// The pattern that lines are tested against was refused, so the line
    /// could not be tested.
    PatternRejected,
}

/// Whether a character is one of the letters that the coordinate pattern
/// takes for a row: a to h, in either case.
pub open spec fn is_row_letter(c: char) -> bool {
    ('a' <= c <= 'h') || ('A' <= c <= 'H')
}

/// Whether a character is one of the digits that the coordinate pattern
/// takes for a column: 0 to 8.
pub open spec fn is_column_digit(c: char) -> bool {
    '0' <= c <= '8'
}

/// Whether somewhere in the text a row letter is directly followed by a
/// column digit.
pub open spec fn holds_coordinate(text: Seq<char>) -> bool {
    exists|i: int|
        0 <= i < text.len() - 1 && is_row_letter(#[trigger] text[i]) && is_column_digit(
            text[i + 1],
        )
}

/// Whether a regular expression that the `regex` crate has compiled from
/// `pattern` finds a match anywhere in `haystack`.
pub uninterp spec fn regex_is_match(pattern: Seq<char>, haystack: Seq<char>) -> bool;

/// Compiles `pattern` with `regex::Regex::new` and, if that succeeds,
/// searches `haystack` with `regex::Regex::is_match`. `None` stands for the
/// error that `Regex::new` returned.
///
/// Believed, not proved:
/// - when the pattern compiles, the answer is the one that `regex_is_match`
///   names, that is, it depends on the two texts alone;
/// - the coordinate pattern compiles, and as two character classes in a
///   row it matches exactly where a character of the first class is
///   directly followed by one of the second, anywhere in the haystack.
///
/// Nothing is claimed about which other patterns compile: the size that
/// `Regex::new` holds against its limit is counted in the machine's own
/// units.
#[verifier::external_body]
fn search(pattern: &str, haystack: &str) -> (found: Option<bool>)
    ensures
        found matches Some(hit) ==> hit == regex_is_match(pattern@, haystack@),
        pattern@ == COORDINATE_PATTERN@ ==> found == Some(holds_coordinate(haystack@)),
{
    match Regex::new(pattern) {
        Ok(re) => Some(re.is_match(haystack)),
        Err(_) => None,
    }
}

/// Whether a line has the form of a coordinate: without the white space
/// around it, it is a row letter followed by a column digit and nothing
/// else.
pub open spec fn well_formed(line: Seq<char>) -> bool {
    let token = trimmed(line);
    token.len() == 2 && is_row_letter(token[0]) && is_column_digit(token[1])
}

/// A line that is well formed can be read, and names a row of the board
/// and a column from 0 to 8.
pub proof fn law_well_formed_is_readable(line: Seq<char>)
    requires
        well_formed(line),
    ensures
        readable(line),
        0 <= coords_of(line).0 < 8,
        0 <= coords_of(line).1 <= 8,
{
}

/// Test a line against the coordinate pattern. A line that is not two
/// characters long without the white space around it is answered without
/// the pattern being tried. The answer is never `None`.
pub fn check_format(line: &str) -> (found: Option<bool>)
    ensures
        found == Some(well_formed(line@)),
{
    let token = trim(line);
    if token.unicode_len() != 2 {
        return Some(false);
    }
    let found = search(COORDINATE_PATTERN, token);
    proof {
        if well_formed(line@) {
            assert(is_row_letter(token@[0]) && is_column_digit(token@[0int + 1]));
        }
        if holds_coordinate(token@) {
            let i = choose|i: int|
                0 <= i < token@.len() - 1 && is_row_letter(#[trigger] token@[i])
                    && is_column_digit(token@[i + 1]);
            assert(i == 0);
        }
    }
    found
}

/// The coordinate that a line stands for, as machine integers.
pub open spec fn named_square(line: Seq<char>) -> (i32, i32) {
    (coords_of(line).0 as i32, coords_of(line).1 as i32)
}

/// The answer to a line that is to name the piece to move, given what the
/// test against the coordinate pattern found. The line is accepted when it
/// is well formed and readable and the square it names is on the board and
/// holds a piece of `side`, man or king.
pub open spec fn origin_answer(
    squares: Map<(int, int), Tile>,
    side: Side,
    line: Seq<char>,
    found: Option<bool>,
) -> Result<(i32, i32), InputError> {
    match found {
        None => Err(InputError::PatternRejected),
        Some(false) => Err(InputError::Malformed),
        Some(true) => {
            if !readable(line) {
                Err(InputError::Malformed)
            } else if !on_board(coords_of(line)) {
                Err(InputError::OffBoard)
            } else if squares[coords_of(line)].owner() != Some(side) {
                Err(InputError::NotYourPiece)
            } else {
                Ok(named_square(line))
            }
        },
    }
}

/// The answer to a line that is to name the square to move to, given what
/// the test against the coordinate pattern found. The line is accepted when
/// it is well formed and readable and the square it names is on the board
/// and empty.
pub open spec fn destination_answer(
    squares: Map<(int, int), Tile>,
    line: Seq<char>,
    found: Option<bool>,
) -> Result<(i32, i32), InputError> {
    match found {
        None => Err(InputError::PatternRejected),
        Some(false) => Err(InputError::Malformed),
        Some(true) => {
            if !readable(line) {
                Err(InputError::Malformed)
            } else if !on_board(coords_of(line)) {
                Err(InputError::OffBoard)
            } else if squares[coords_of(line)] != Tile::Empty {
                Err(InputError::Occupied)
            } else {
                Ok(named_square(line))
            }
        },
    }
}

/// Decide on a line that is to name the piece to move, once it has been
/// tested against the coordinate pattern.
pub fn origin_from_format(board: &Board, side: Side, line: &str, found: Option<bool>) -> (out:
    Result<(i32, i32), InputError>)
    ensures
        out == origin_answer(grid(*board), side, line@, found),
{
    match found {
        None => Err(InputError::PatternRejected),
        Some(false) => Err(InputError::Malformed),
        Some(true) => {
            match try_coords_from_string(line) {
                None => Err(InputError::Malformed),
                Some(coords) => {
                    if out_of_bounds(coords) {
                        Err(InputError::OffBoard)
                    } else if king_version(board[coords.0 as usize][coords.1 as usize])
                        != king_version(side.man()) {
                        Err(InputError::NotYourPiece)
                    } else {
                        Ok(coords)
                    }
                },
            }
        },
    }
}

/// Decide on a line that is to name the square to move to, once it has
/// been tested against the coordinate pattern.
pub fn destination_from_format(board: &Board, line: &str, found: Option<bool>) -> (out: Result<
    (i32, i32),
    InputError,
>)
    ensures
        out == destination_answer(grid(*board), line@, found),
{
    match found {
        None => Err(InputError::PatternRejected),
        Some(false) => Err(InputError::Malformed),
        Some(true) => {
            match try_coords_from_string(line) {
                None => Err(InputError::Malformed),
                Some(coords) => {
                    if out_of_bounds(coords) {
                        Err(InputError::OffBoard)
                    } else if board[coords.0 as usize][coords.1 as usize] != Tile::Empty {
                        Err(InputError::Occupied)
                    } else {
                        Ok(coords)
                    }
                },
            }
        },
    }
}

/// Read the piece to move from a line typed by the player of `side`: the
/// line is accepted when it is well formed and the square it names is on
/// the board and holds a piece of `side`, man or king.
pub fn read_origin(board: &Board, side: Side, line: &str) -> (out: Result<(i32, i32), InputError>)
    ensures
        out == origin_answer(grid(*board), side, line@, Some(well_formed(line@))),
{
    let found = check_format(line);
    origin_from_format(board, side, line, found)
}

/// Read the square to move to from a line typed by a player: the line is
/// accepted when it is well formed and the square it names is on the board
/// and empty.
pub fn read_destination(board: &Board, line: &str) -> (out: Result<(i32, i32), InputError>)
    ensures
        out == destination_answer(grid(*board), line@, Some(well_formed(line@))),
{
    let found = check_format(line);
    destination_from_format(board, line, found)
}

} // verus!
