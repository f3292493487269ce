use checkers::board::{initialize_board, Board, Side, Tile};
use checkers::game::{Game, Phase, TurnOutcome, WINNING_SCORE};
use checkers::rules::Score;

fn board_with(pieces: &[((usize, usize), Tile)]) -> Board {
    let mut board = [[Tile::Empty; 8]; 8];
    for ((row, col), tile) in pieces.iter() {
        board[*row][*col] = *tile;
    }
    board
}

fn game_at(board: Board, side: Side, dark: u32, light: u32) -> Game {
    match Game::from_position(board, side, Score { dark, light }) {
        Some(game) => game,
        None => panic!("not a position in which a move is awaited"),
    }
}

#[test]
fn new_game_awaits_light_on_the_opening_layout() {
    let game = Game::new();
    assert_eq!(game.board(), initialize_board());
    assert_eq!(game.score(), Score { dark: 0, light: 0 });
    assert_eq!(game.phase(), Phase::AwaitingMove(Side::Light));
    assert_eq!(WINNING_SCORE, 12);
}

#[test]
fn plain_move_passes_the_turn() {
    let mut game = Game::new();
    assert_eq!(game.play((5, 0), (4, 1)), TurnOutcome::Moved);
    assert_eq!(game.phase(), Phase::AwaitingMove(Side::Dark));
    assert_eq!(game.board()[5][0], Tile::Empty);
    assert_eq!(game.board()[4][1], Tile::Circle);
    assert_eq!(game.play((2, 1), (3, 2)), TurnOutcome::Moved);
    assert_eq!(game.phase(), Phase::AwaitingMove(Side::Light));
    assert_eq!(game.score(), Score { dark: 0, light: 0 });
}

#[test]
fn illegal_moves_change_nothing() {
    let mut game = Game::new();
    let before = game.board();
    assert_eq!(game.play((5, 0), (5, 0)), TurnOutcome::IllegalMove);
    assert_eq!(game.play((5, 0), (3, 2)), TurnOutcome::IllegalMove);
    assert_eq!(game.play((5, 0), (6, 1)), TurnOutcome::IllegalMove);
    assert_eq!(game.play((5, 0), (4, -1)), TurnOutcome::IllegalMove);
    assert_eq!(game.play((-1, 0), (4, 1)), TurnOutcome::IllegalMove);
    assert_eq!(game.play((9, 9), (4, 1)), TurnOutcome::IllegalMove);
    assert_eq!(game.board(), before);
    assert_eq!(game.phase(), Phase::AwaitingMove(Side::Light));
}

#[test]
fn moving_the_other_sides_piece_or_an_empty_square_is_illegal() {
    let mut game = Game::new();
    let before = game.board();
    assert_eq!(game.play((2, 1), (3, 2)), TurnOutcome::IllegalMove);
    assert_eq!(game.play((4, 1), (3, 2)), TurnOutcome::IllegalMove);
    assert_eq!(game.board(), before);
    assert_eq!(game.phase(), Phase::AwaitingMove(Side::Light));
}

#[test]
fn capture_by_dark_through_the_session() {
    let board = board_with(&[((2, 2), Tile::Cross), ((3, 3), Tile::Circle)]);
    let mut game = game_at(board, Side::Dark, 0, 0);
    assert_eq!(game.play((2, 2), (4, 4)), TurnOutcome::Captured);
    assert_eq!(game.board(), board_with(&[((4, 4), Tile::Cross)]));
    assert_eq!(game.score(), Score { dark: 1, light: 0 });
    assert_eq!(game.phase(), Phase::AwaitingMove(Side::Light));
}

#[test]
fn plain_move_is_refused_while_a_capture_is_available() {
    let board = board_with(&[
        ((2, 2), Tile::Cross),
        ((3, 3), Tile::Circle),
        ((1, 5), Tile::Cross),
    ]);
    let mut game = game_at(board, Side::Dark, 0, 0);
    assert_eq!(game.play((1, 5), (2, 6)), TurnOutcome::CaptureRequired);
    assert_eq!(game.play((2, 2), (3, 1)), TurnOutcome::CaptureRequired);
    assert_eq!(game.board(), board);
    assert_eq!(game.score(), Score { dark: 0, light: 0 });
    assert_eq!(game.phase(), Phase::AwaitingMove(Side::Dark));
    assert_eq!(game.play((2, 2), (4, 4)), TurnOutcome::Captured);
    assert_eq!(game.phase(), Phase::AwaitingMove(Side::Light));
}

#[test]
fn dark_man_reaching_the_last_row_is_crowned() {
    let board = board_with(&[((6, 3), Tile::Cross), ((0, 1), Tile::Circle)]);
    let mut game = game_at(board, Side::Dark, 0, 0);
    assert_eq!(game.play((6, 3), (7, 4)), TurnOutcome::Moved);
    assert_eq!(game.board()[7][4], Tile::CrossKing);
    assert_eq!(game.board()[6][3], Tile::Empty);
}

#[test]
fn light_man_is_crowned_by_a_capture_onto_row_zero() {
    let board = board_with(&[((2, 2), Tile::Circle), ((1, 3), Tile::Cross)]);
    let mut game = game_at(board, Side::Light, 4, 6);
    assert_eq!(game.play((2, 2), (0, 4)), TurnOutcome::Captured);
    assert_eq!(game.board(), board_with(&[((0, 4), Tile::CircleKing)]));
    assert_eq!(game.score(), Score { dark: 4, light: 7 });
}

#[test]
fn king_steps_backward_and_keeps_its_crown() {
    let board = board_with(&[((4, 4), Tile::CrossKing), ((7, 0), Tile::Circle)]);
    let mut game = game_at(board, Side::Dark, 0, 0);
    assert_eq!(game.play((4, 4), (3, 3)), TurnOutcome::Moved);
    assert_eq!(game.board()[3][3], Tile::CrossKing);
}

#[test]
fn twelfth_capture_ends_the_game() {
    let board = board_with(&[
        ((2, 2), Tile::Cross),
        ((3, 3), Tile::Circle),
        ((6, 6), Tile::Circle),
    ]);
    let mut game = game_at(board, Side::Dark, 11, 4);
    assert_eq!(game.play((2, 2), (4, 4)), TurnOutcome::Won(Side::Dark));
    assert_eq!(game.phase(), Phase::GameOver(Side::Dark));
    assert_eq!(game.score(), Score { dark: 12, light: 4 });
    let after = game.board();
    assert_eq!(after, board_with(&[((4, 4), Tile::Cross), ((6, 6), Tile::Circle)]));
    assert_eq!(game.play((6, 6), (5, 5)), TurnOutcome::GameIsOver);
    assert_eq!(game.play((4, 4), (5, 5)), TurnOutcome::GameIsOver);
    assert_eq!(game.play((0, 0), (0, 0)), TurnOutcome::GameIsOver);
    assert_eq!(game.board(), after);
    assert_eq!(game.phase(), Phase::GameOver(Side::Dark));
    assert_eq!(game.score(), Score { dark: 12, light: 4 });
}

#[test]
fn twelfth_capture_by_light_ends_the_game_for_light() {
    let board = board_with(&[((5, 5), Tile::Circle), ((4, 4), Tile::Cross)]);
    let mut game = game_at(board, Side::Light, 0, 11);
    assert_eq!(game.play((5, 5), (3, 3)), TurnOutcome::Won(Side::Light));
    assert_eq!(game.phase(), Phase::GameOver(Side::Light));
}

#[test]
fn no_game_starts_from_a_finished_score() {
    let board = initialize_board();
    assert!(Game::from_position(board, Side::Dark, Score { dark: 12, light: 0 }).is_none());
    assert!(Game::from_position(board, Side::Light, Score { dark: 0, light: 40 }).is_none());
    assert!(Game::from_position(board, Side::Light, Score { dark: 11, light: 11 }).is_some());
}

#[test]
fn a_capture_ends_the_turn_even_if_another_is_open() {
    let board = board_with(&[
        ((0, 0), Tile::Cross),
        ((1, 1), Tile::Circle),
        ((3, 3), Tile::Circle),
    ]);
    let mut game = game_at(board, Side::Dark, 0, 0);
    assert_eq!(game.play((0, 0), (2, 2)), TurnOutcome::Captured);
    assert_eq!(game.phase(), Phase::AwaitingMove(Side::Light));
    assert_eq!(game.play((2, 2), (4, 4)), TurnOutcome::IllegalMove);
}
