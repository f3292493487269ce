use checkers::board::{initialize_board, Side, Tile};
use checkers::coords::{
    coords_from_string, letter_to_digit, trim, try_coords_from_string, LETTER_MAP,
};
use checkers::prompt::{
    check_format, destination_from_format, origin_from_format, read_destination, read_origin,
    InputError, COORDINATE_PATTERN,
};
use checkers::render::{render_board, row_to_string, tile_to_string, COLUMN_HEADER};

#[test]
fn letters_map_to_rows() {
    for (index, letter) in LETTER_MAP.iter().enumerate() {
        assert_eq!(letter_to_digit(*letter), index as i32);
    }
    assert_eq!(letter_to_digit('A'), 0);
    assert_eq!(letter_to_digit('H'), 7);
    assert_eq!(letter_to_digit('I'), -1);
    assert_eq!(letter_to_digit('a'), -1);
    assert_eq!(letter_to_digit('@'), -1);
    assert_eq!(letter_to_digit('7'), -1);
}

#[test]
fn coordinate_strings_parse() {
    assert_eq!(coords_from_string(String::from("a0")), (0, 0));
    assert_eq!(coords_from_string(String::from("H7")), (7, 7));
    assert_eq!(coords_from_string(String::from("A0")), (0, 0));
    assert_eq!(coords_from_string(String::from("C3")), (2, 3));
    assert_eq!(coords_from_string(String::from("  g5\n")), (6, 5));
    assert_eq!(coords_from_string(String::from("\tb1\r\n")), (1, 1));
}

#[test]
fn coordinate_strings_off_the_board_still_convert() {
    assert_eq!(coords_from_string(String::from("Z9")), (-1, 9));
    assert_eq!(coords_from_string(String::from("a8")), (0, 8));
    assert_eq!(coords_from_string(String::from("?5")), (-1, 5));
    assert_eq!(coords_from_string(String::from("d42")), (3, 4));
}

#[test]
fn unreadable_strings_are_refused() {
    assert_eq!(try_coords_from_string(""), None);
    assert_eq!(try_coords_from_string("   \n"), None);
    assert_eq!(try_coords_from_string("a"), None);
    assert_eq!(try_coords_from_string("a "), None);
    assert_eq!(try_coords_from_string("ab"), None);
    assert_eq!(try_coords_from_string("a b1"), None);
    assert_eq!(try_coords_from_string("\u{e9}1"), None);
    assert_eq!(try_coords_from_string("a\u{661}"), None);
    assert_eq!(try_coords_from_string("a0"), Some((0, 0)));
    assert_eq!(try_coords_from_string(" H7 "), Some((7, 7)));
}

#[test]
fn trim_removes_white_space_at_both_ends_only() {
    assert_eq!(trim("  a b \n"), "a b");
    assert_eq!(trim("\u{a0}\u{3000}x\u{2003}"), "x");
    assert_eq!(trim(""), "");
    assert_eq!(trim(" \t\r\n"), "");
    assert_eq!(trim("plain"), "plain");
    assert_eq!(trim("\u{200b}a"), "\u{200b}a");
    for text in ["", " ", " a ", "\na\u{85}", "\u{1680}b c\u{205f}", "\u{feff}z "] {
        assert_eq!(trim(text), text.trim());
    }
}

#[test]
fn format_follows_the_coordinate_pattern() {
    assert_eq!(COORDINATE_PATTERN, "[a-hA-H][0-8]");
    assert_eq!(check_format("a0"), Some(true));
    assert_eq!(check_format("H8\n"), Some(true));
    assert_eq!(check_format("  c4  "), Some(true));
    assert_eq!(check_format("i0"), Some(false));
    assert_eq!(check_format("a9"), Some(false));
    assert_eq!(check_format("0a"), Some(false));
    assert_eq!(check_format("a"), Some(false));
    assert_eq!(check_format(""), Some(false));
    assert_eq!(check_format("a12"), Some(false));
    assert_eq!(check_format("xa1"), Some(false));
    assert_eq!(check_format("\u{e9}1"), Some(false));
}

#[test]
fn origin_must_hold_a_piece_of_the_side() {
    let board = initialize_board();
    assert_eq!(read_origin(&board, Side::Dark, "b0\n"), Ok((1, 0)));
    assert_eq!(read_origin(&board, Side::Dark, "A1\n"), Ok((0, 1)));
    assert_eq!(read_origin(&board, Side::Light, "f0\n"), Ok((5, 0)));
    assert_eq!(read_origin(&board, Side::Light, "b0\n"), Err(InputError::NotYourPiece));
    assert_eq!(read_origin(&board, Side::Dark, "a0\n"), Err(InputError::NotYourPiece));
    assert_eq!(read_origin(&board, Side::Dark, "a8\n"), Err(InputError::OffBoard));
    assert_eq!(read_origin(&board, Side::Dark, "i1\n"), Err(InputError::Malformed));
    assert_eq!(read_origin(&board, Side::Dark, "b\n"), Err(InputError::Malformed));
    assert_eq!(read_origin(&board, Side::Dark, "\n"), Err(InputError::Malformed));
    assert_eq!(read_origin(&board, Side::Dark, "b00\n"), Err(InputError::Malformed));
}

#[test]
fn origin_accepts_kings_of_the_side() {
    let mut board = [[Tile::Empty; 8]; 8];
    board[3][3] = Tile::CrossKing;
    board[4][4] = Tile::CircleKing;
    assert_eq!(read_origin(&board, Side::Dark, "d3"), Ok((3, 3)));
    assert_eq!(read_origin(&board, Side::Light, "e4"), Ok((4, 4)));
    assert_eq!(read_origin(&board, Side::Light, "d3"), Err(InputError::NotYourPiece));
}

#[test]
fn destination_must_be_empty_and_on_the_board() {
    let board = initialize_board();
    assert_eq!(read_destination(&board, "d0\n"), Ok((3, 0)));
    assert_eq!(read_destination(&board, "a0\n"), Ok((0, 0)));
    assert_eq!(read_destination(&board, "a1\n"), Err(InputError::Occupied));
    assert_eq!(read_destination(&board, "h0\n"), Err(InputError::Occupied));
    assert_eq!(read_destination(&board, "d8\n"), Err(InputError::OffBoard));
    assert_eq!(read_destination(&board, "d9\n"), Err(InputError::Malformed));
    assert_eq!(read_destination(&board, "dd\n"), Err(InputError::Malformed));
}

#[test]
fn answers_follow_the_format_verdict_handed_in() {
    let board = initialize_board();
    assert_eq!(
        origin_from_format(&board, Side::Dark, "b0", None),
        Err(InputError::PatternRejected)
    );
    assert_eq!(
        origin_from_format(&board, Side::Dark, "b0", Some(false)),
        Err(InputError::Malformed)
    );
    assert_eq!(origin_from_format(&board, Side::Dark, "b0", Some(true)), Ok((1, 0)));
    assert_eq!(
        origin_from_format(&board, Side::Dark, "??", Some(true)),
        Err(InputError::Malformed)
    );
    assert_eq!(
        origin_from_format(&board, Side::Dark, "z5", Some(true)),
        Err(InputError::OffBoard)
    );
    assert_eq!(
        destination_from_format(&board, "d0", None),
        Err(InputError::PatternRejected)
    );
    assert_eq!(
        destination_from_format(&board, "d0", Some(false)),
        Err(InputError::Malformed)
    );
    assert_eq!(destination_from_format(&board, "d0", Some(true)), Ok((3, 0)));
    assert_eq!(
        destination_from_format(&board, "b0", Some(true)),
        Err(InputError::Occupied)
    );
}

#[test]
fn tiles_have_their_glyphs() {
    assert_eq!(tile_to_string(Tile::Cross), "X");
    assert_eq!(tile_to_string(Tile::CrossKing), "X\u{302}");
    assert_eq!(tile_to_string(Tile::Circle), "0");
    assert_eq!(tile_to_string(Tile::CircleKing), "\u{14c}");
    assert_eq!(tile_to_string(Tile::Empty), " ");
}

#[test]
fn rows_render_with_letter_and_brackets() {
    let mut board = initialize_board();
    assert_eq!(row_to_string(&board, 0), "A [ ][X][ ][X][ ][X][ ][X]");
    assert_eq!(row_to_string(&board, 1), "B [X][ ][X][ ][X][ ][X][ ]");
    assert_eq!(row_to_string(&board, 3), "D [ ][ ][ ][ ][ ][ ][ ][ ]");
    assert_eq!(row_to_string(&board, 7), "H [0][ ][0][ ][0][ ][0][ ]");
    board[3][0] = Tile::CrossKing;
    board[3][7] = Tile::CircleKing;
    assert_eq!(row_to_string(&board, 3), "D [X\u{302}][ ][ ][ ][ ][ ][ ][\u{14c}]");
}

#[test]
fn board_renders_as_header_and_eight_rows() {
    let board = initialize_board();
    let lines = render_board(&board);
    assert_eq!(lines.len(), 9);
    assert_eq!(lines[0], "   0  1  2  3  4  5  6  7");
    assert_eq!(lines[0], COLUMN_HEADER);
    for row in 0..8usize {
        assert_eq!(lines[row + 1], row_to_string(&board, row));
    }
    assert_eq!(lines[6], "F [0][ ][0][ ][0][ ][0][ ]");
}

#[test]
fn every_letter_and_digit_of_the_pattern_is_accepted_and_no_other() {
    for letter in "abcdefghABCDEFGH".chars() {
        for digit in "012345678".chars() {
            let line = format!(" {}{}\n", letter, digit);
            assert_eq!(check_format(&line), Some(true), "{:?}", line);
        }
        assert_eq!(check_format(&format!("{}9", letter)), Some(false));
        assert_eq!(check_format(&format!("{}{}", letter, letter)), Some(false));
    }
    for other in "iIzZ@`[{ 09".chars() {
        assert_eq!(check_format(&format!("x{}0x", other)), Some(false));
        assert_eq!(check_format(&format!("{}0", other)), Some(false), "{:?}", other);
    }
}

#[test]
fn a_typed_line_is_never_answered_with_a_refused_pattern() {
    let board = initialize_board();
    for line in ["", "a", "a0", "h8", "zz", "b0\n", "  d0  ", "\u{e9}1", "a12"] {
        assert_ne!(read_origin(&board, Side::Dark, line), Err(InputError::PatternRejected));
        assert_ne!(read_destination(&board, line), Err(InputError::PatternRejected));
    }
}
