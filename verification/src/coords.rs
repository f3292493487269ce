//! Coordinates as text: a letter for the row and a digit for the column, as
//! the rendered board labels them.

use vstd::prelude::*;
use vstd::string::*;

verus! {

/// The letters that label the rows, in row order.
pub const LETTER_MAP: [char; 8] = ['A', 'B', 'C', 'D', 'E', 'F', 'G', 'H'];

/// The row that a letter labels, or -1 if it labels none.
pub open spec fn letter_index(letter: char) -> int {
    if 'A' <= letter <= 'H' {
        letter as int - 'A' as int
    } else {
        -1
    }
}

/// Return a letter to int representation (A = 0, B = 1 etc), -1 for any
/// other character.
pub fn letter_to_digit(letter: char) -> (out: i32)
    ensures
        out == letter_index(letter),
{
    let mut i: usize = 0;
    while i < 8
        invariant
            i <= 8,
            forall|k: int| 0 <= k < i ==> LETTER_MAP[k] != letter,
        decreases 8 - i,
    {
        if LETTER_MAP[i] == letter {
            return i as i32;
        }
        i += 1;
    }
    -1
}

/// Whether a character is white space in the sense of Unicode.
pub open spec fn is_whitespace(c: char) -> bool {
    let n = c as u32;
    ||| 0x09 <= n <= 0x0D
    ||| n == 0x20
    ||| n == 0x85
    ||| n == 0xA0
    ||| n == 0x1680
    ||| 0x2000 <= n <= 0x200A
    ||| n == 0x2028
    ||| n == 0x2029
    ||| n == 0x202F
    ||| n == 0x205F
    ||| n == 0x3000
}

fn whitespace(c: char) -> (out: bool)
    ensures
        out == is_whitespace(c),
{
    let n: u32 = c as u32;
    (0x09 <= n && n <= 0x0D) || n == 0x20 || n == 0x85 || n == 0xA0 || n == 0x1680 || (0x2000 <= n
        && n <= 0x200A) || n == 0x2028 || n == 0x2029 || n == 0x202F || n == 0x205F || n == 0x3000
}

/// The upper-case form of an ASCII letter; any other character is itself.
pub open spec fn ascii_upper(c: char) -> char {
    if 'a' <= c <= 'z' {
        ((c as u8) - 32) as char
    } else {
        c
    }
}

fn to_ascii_upper(c: char) -> (out: char)
    ensures
        out == ascii_upper(c),
{
    if 'a' <= c && c <= 'z' {
        ((c as u8) - 32) as char
    } else {
        c
    }
}

/// The text without its leading white space.
pub open spec fn trim_start(s: Seq<char>) -> Seq<char>
    decreases s.len(),
{
    if s.len() > 0 && is_whitespace(s.first()) {
        trim_start(s.drop_first())
    } else {
        s
    }
}

/// The text without its trailing white space.
pub open spec fn trim_end(s: Seq<char>) -> Seq<char>
    decreases s.len(),
{
    if s.len() > 0 && is_whitespace(s.last()) {
        trim_end(s.drop_last())
    } else {
        s
    }
}

/// The text without the white space at either end.
pub open spec fn trimmed(s: Seq<char>) -> Seq<char> {
    trim_end(trim_start(s))
}

/// The text without the white space at either end.
pub fn trim(text: &str) -> (out: &str)
    ensures
        out@ == trimmed(text@),
{
    let len = text.unicode_len();
    let mut start: usize = 0;
    assert(text@.skip(0) =~= text@);
    while start < len && whitespace(text.get_char(start))
        invariant
            start <= len,
            len == text@.len(),
            trim_start(text@) == trim_start(text@.skip(start as int)),
        decreases len - start,
    {
        assert(text@.skip(start as int).drop_first() =~= text@.skip(start as int + 1));
        start += 1;
    }
    assert(text@.skip(start as int) =~= text@.subrange(start as int, len as int));
    let mut end: usize = len;
    while end > start && whitespace(text.get_char(end - 1))
        invariant
            start <= end <= len,
            len == text@.len(),
            trimmed(text@) == trim_end(text@.subrange(start as int, end as int)),
        decreases end,
    {
        assert(text@.subrange(start as int, end as int).drop_last() =~= text@.subrange(
            start as int,
            end as int - 1,
        ));
        end -= 1;
    }
    text.substring_char(start, end)
}

/// Whether a character is a decimal digit.
pub open spec fn is_decimal_digit(c: char) -> bool {
    '0' <= c <= '9'
}

/// Whether the text can be read as a coordinate: without the white space
/// around it, it starts with an ASCII character and a decimal digit.
pub open spec fn readable(text: Seq<char>) -> bool {
    let token = trimmed(text);
    token.len() >= 2 && (token[0] as u32) < 128 && is_decimal_digit(token[1])
}

/// The coordinate that a readable text stands for: the row of its letter,
/// in either case, and the column of its digit. A letter that labels no row
/// gives row -1, and the digits 8 and 9 give columns off the board.
pub open spec fn coords_of(text: Seq<char>) -> (int, int) {
    let token = trimmed(text);
    (letter_index(ascii_upper(token[0])), token[1] as int - '0' as int)
}

/// The coordinate that a trimmed text stands for, from its first two
/// characters.
fn token_coords(token: &str) -> (out: (i32, i32))
    requires
        token@.len() >= 2,
        is_decimal_digit(token@[1]),
    ensures
        out.0 == letter_index(ascii_upper(token@[0])),
        out.1 == token@[1] as int - '0' as int,
{
    let x1 = token.get_char(0);
    let y1 = token.get_char(1);
    let y1: i32 = (y1 as u32 - '0' as u32) as i32;
    (letter_to_digit(to_ascii_upper(x1)), y1)
}

/// Convert a coordinate string to a coordinate if it is readable.
pub fn try_coords_from_string(input: &str) -> (out: Option<(i32, i32)>)
    ensures
        out.is_some() <==> readable(input@),
        out matches Some(coords) ==> (coords.0 as int, coords.1 as int) == coords_of(input@),
{
    let token = trim(input);
    if token.unicode_len() < 2 {
        return None;
    }
    let x1 = token.get_char(0);
    let y1 = token.get_char(1);
    if x1 as u32 >= 128 || !('0' <= y1 && y1 <= '9') {
        return None;
    }
    Some(token_coords(token))
}

/// Convert a valid coordinate string to a usable coordinate.
/// E.g. A0 = (0,0), C3 = (2, 3)
pub fn coords_from_string(input: String) -> (out: (i32, i32))
    requires
        readable(input@),
    ensures
        (out.0 as int, out.1 as int) == coords_of(input@),
{
    token_coords(trim(input.as_str()))
}

} // verus!
