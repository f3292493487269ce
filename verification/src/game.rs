//! A session of the game: the board, the score and whose turn it is, and
//! the step that a submitted move takes the session through.

use vstd::prelude::*;
use crate::board::{
    grid, initial_grid, initialize_board, king_version, move_piece, on_board, out_of_bounds,
    promoted, pt, relocated, Board, Side, Tile,
};
use crate::rules::{
    after_verdict, between, can_score, capture_available, is_valid_move, verdict, MoveResult, Score,
};

verus! {

/// The number of captures that wins the game.
pub const WINNING_SCORE: u32 = 12;

/// Where a session stands.
#[derive(Copy, Clone, PartialEq, Eq, Structural, Debug)]
pub enum Phase {
    /// The side named is to move.
    AwaitingMove(Side),
    /// The side named has won; no move is accepted any more.
    GameOver(Side),
}

/// What became of a submitted move, and with it what the caller does next.
#[derive(Copy, Clone, PartialEq, Eq, Structural, Debug)]
pub enum TurnOutcome {
    /// The move breaks a rule. Nothing changed; the same side is asked
    /// again.
    IllegalMove,
    /// The move is a legal plain move, but the side has a capture to make
    /// and must make one. Nothing changed; the same side is asked again.
    CaptureRequired,
    /// A plain move was made; the other side is to move.
    Moved,
    /// A capture was made; the other side is to move.
    Captured,
    /// A capture was made and it won the game for the side named.
    Won(Side),
    /// The game had ended before; nothing changed.
    GameIsOver,
}

/// The first side found to have reached the winning score, Dark being
/// looked at first.
pub open spec fn winner(score: Score) -> Option<Side> {
    if score.dark >= WINNING_SCORE {
        Some(Side::Dark)
    } else if score.light >= WINNING_SCORE {
        Some(Side::Light)
    } else {
        None
    }
}

/// A session as a mathematical value.
pub struct Position {
    pub squares: Map<(int, int), Tile>,
    pub score: Score,
    pub phase: Phase,
}

impl Position {
    /// Score and phase agree: while a move is awaited neither side has
    /// reached the winning score, and once the game is over the winner has
    /// exactly that score and the loser less.
    pub open spec fn consistent(self) -> bool {
        match self.phase {
            Phase::AwaitingMove(_) => self.score.dark < WINNING_SCORE && self.score.light
                < WINNING_SCORE,
            Phase::GameOver(side) => self.score.of(side) == WINNING_SCORE && self.score.of(
                side.other(),
            ) < WINNING_SCORE,
        }
    }

    /// Whether `from` holds a piece, man or king, of `side`.
    pub open spec fn holds_piece_of(self, from: (int, int), side: Side) -> bool {
        on_board(from) && self.squares[from].owner() == Some(side)
    }
}

/// The step of the session on a move from `from` to `to`: the position that
/// follows and what became of the move.
///
/// Once the game is over nothing is accepted. A move whose origin does not
/// hold a piece of the side to move, or on which the verdict is invalid,
/// changes nothing. Nor does a plain move while the side has a capture to
/// make. A plain move otherwise relocates the piece and passes the turn. A
/// capture takes the piece jumped over, relocates the capturing piece and
/// counts one for the side; the game ends if that reaches the winning
/// score, and else the turn passes: a single capture ends the turn.
pub open spec fn turn(pos: Position, from: (int, int), to: (int, int)) -> (Position, TurnOutcome) {
    match pos.phase {
        Phase::GameOver(_) => (pos, TurnOutcome::GameIsOver),
        Phase::AwaitingMove(side) => {
            if !pos.holds_piece_of(from, side) {
                (pos, TurnOutcome::IllegalMove)
            } else {
                match verdict(pos.squares, from, to, side) {
                    MoveResult::Invalid => (pos, TurnOutcome::IllegalMove),
                    MoveResult::Plain => {
                        if capture_available(pos.squares, side) {
                            (pos, TurnOutcome::CaptureRequired)
                        } else {
                            (
                                Position {
                                    squares: relocated(pos.squares, from, to),
                                    score: pos.score,
                                    phase: Phase::AwaitingMove(side.other()),
                                },
                                TurnOutcome::Moved,
                            )
                        }
                    },
                    MoveResult::Capture => {
                        let squares = relocated(
                            after_verdict(pos.squares, from, to, side),
                            from,
                            to,
                        );
                        let score = pos.score.credited(side);
                        match winner(score) {
                            Some(champion) => (
                                Position { squares, score, phase: Phase::GameOver(champion) },
                                TurnOutcome::Won(champion),
                            ),
                            None => (
                                Position {
                                    squares,
                                    score,
                                    phase: Phase::AwaitingMove(side.other()),
                                },
                                TurnOutcome::Captured,
                            ),
                        }
                    },
                }
            }
        },
    }
}

/// A session of the game. Its score and phase always agree, as
/// `Position::consistent` says.
pub struct Game {
    board: Board,
    score: Score,
    phase: Phase,
}

impl View for Game {
    type V = Position;

    closed spec fn view(&self) -> Position {
        Position { squares: grid(self.board), score: self.score, phase: self.phase }
    }
}

impl Game {
    #[verifier::type_invariant]
    spec fn agrees(self) -> bool {
        self@.consistent()
    }

    /// A new game: the opening layout, no captures, Light to move.
    pub fn new() -> (game: Game)
        ensures
            game@ == (Position {
                squares: initial_grid(),
                score: Score { dark: 0, light: 0 },
                phase: Phase::AwaitingMove(Side::Light),
            }),
    {
        Game {
            board: initialize_board(),
            score: Score { dark: 0, light: 0 },
            phase: Phase::AwaitingMove(Side::Light),
        }
    }

    /// A game that stands at the given board with `side` to move, if
    /// neither count in `score` has reached the winning score.
    pub fn from_position(board: Board, side: Side, score: Score) -> (out: Option<Game>)
        ensures
            out.is_some() <==> score.dark < WINNING_SCORE && score.light < WINNING_SCORE,
            out matches Some(game) ==> game@ == (Position {
                squares: grid(board),
                score,
                phase: Phase::AwaitingMove(side),
            }),
    {
        if score.dark < WINNING_SCORE && score.light < WINNING_SCORE {
            Some(Game { board, score, phase: Phase::AwaitingMove(side) })
        } else {
            None
        }
    }

    /// The board as it stands.
    pub fn board(&self) -> (out: Board)
        ensures
            grid(out) == self@.squares,
    {
        self.board
    }

    /// The captures made so far.
    pub fn score(&self) -> (out: Score)
        ensures
            out == self@.score,
            self@.consistent(),
    {
        proof {
            use_type_invariant(self);
        }
        self.score
    }

    /// Where the session stands.
    pub fn phase(&self) -> (out: Phase)
        ensures
            out == self@.phase,
            self@.consistent(),
    {
        proof {
            use_type_invariant(self);
        }
        self.phase
    }

    /// Submit a move of the side whose turn it is.
    pub fn play(&mut self, from: (i32, i32), to: (i32, i32)) -> (outcome: TurnOutcome)
        ensures
            (final(self)@, outcome) == turn(old(self)@, pt(from), pt(to)),
    {
        proof {
            use_type_invariant(&*self);
        }
        let side = match self.phase {
            Phase::GameOver(_) => {
                return TurnOutcome::GameIsOver;
            },
            Phase::AwaitingMove(side) => side,
        };
        if out_of_bounds(from) {
            return TurnOutcome::IllegalMove;
        }
        let origin = self.board[from.0 as usize][from.1 as usize];
        if king_version(origin) != king_version(side.man()) {
            return TurnOutcome::IllegalMove;
        }
        let mut board = self.board;
        let mut score = self.score;
        let move_result = is_valid_move(&mut board, &mut score, from, to, side);
        match move_result {
            MoveResult::Invalid => TurnOutcome::IllegalMove,
            MoveResult::Plain => {
                if can_score(&board, side) {
                    TurnOutcome::CaptureRequired
                } else {
                    let moved = move_piece(board, from, to);
                    *self = Game { board: moved, score, phase: Phase::AwaitingMove(side.opponent()) };
                    TurnOutcome::Moved
                }
            },
            MoveResult::Capture => {
                let moved = move_piece(board, from, to);
                if score.dark >= WINNING_SCORE {
                    *self = Game { board: moved, score, phase: Phase::GameOver(Side::Dark) };
                    TurnOutcome::Won(Side::Dark)
                } else if score.light >= WINNING_SCORE {
                    *self = Game { board: moved, score, phase: Phase::GameOver(Side::Light) };
                    TurnOutcome::Won(Side::Light)
                } else {
                    *self = Game { board: moved, score, phase: Phase::AwaitingMove(side.opponent()) };
                    TurnOutcome::Captured
                }
            },
        }
    }
}

/// While a side has a capture to make, no plain move of that side is
/// accepted: the session stays as it is and the side is asked again.
pub proof fn law_capture_is_forced(pos: Position, from: (int, int), to: (int, int), side: Side)
    requires
        pos.phase == Phase::AwaitingMove(side),
        capture_available(pos.squares, side),
        verdict(pos.squares, from, to, side) == MoveResult::Plain,
    ensures
        turn(pos, from, to).0 == pos,
        turn(pos, from, to).1 == TurnOutcome::CaptureRequired || turn(pos, from, to).1
            == TurnOutcome::IllegalMove,
        pos.holds_piece_of(from, side) ==> turn(pos, from, to).1 == TurnOutcome::CaptureRequired,
{
}

/// The end of the game is final: whatever move is submitted, nothing
/// changes.
pub proof fn law_game_over_is_final(pos: Position, from: (int, int), to: (int, int))
    requires
        pos.phase is GameOver,
    ensures
        turn(pos, from, to) == (pos, TurnOutcome::GameIsOver),
{
}

/// Score and phase agree after every step if they did before it.
pub proof fn law_turn_keeps_consistency(pos: Position, from: (int, int), to: (int, int))
    requires
        pos.consistent(),
    ensures
        turn(pos, from, to).0.consistent(),
{
}

/// The session changes exactly when a move is made: on a plain move or a
/// capture the turn passes to the other side, or the game ends with the
/// side that moved as the winner; on every other outcome the position is
/// the one before.
pub proof fn law_turn_passes_only_on_a_move(
    pos: Position,
    from: (int, int),
    to: (int, int),
    side: Side,
)
    requires
        pos.consistent(),
        pos.phase == Phase::AwaitingMove(side),
    ensures
        match turn(pos, from, to).1 {
            TurnOutcome::Moved | TurnOutcome::Captured => turn(pos, from, to).0.phase
                == Phase::AwaitingMove(side.other()),
            TurnOutcome::Won(champion) => champion == side && turn(pos, from, to).0.phase
                == Phase::GameOver(side) && pos.score.of(side) == WINNING_SCORE - 1,
            TurnOutcome::IllegalMove | TurnOutcome::CaptureRequired => turn(pos, from, to).0
                == pos,
            TurnOutcome::GameIsOver => false,
        },
{
}

/// A turn that captures changes three squares and one count: the origin
/// and the square jumped over are empty afterwards, the destination holds
/// the piece that moved, crowned if it is a man that reached its far row,
/// every other square holds what it held; the side that moved has one
/// capture more and the other side as many as before.
pub proof fn law_capturing_turn(pos: Position, from: (int, int), to: (int, int), side: Side)
    requires
        pos.consistent(),
        pos.phase == Phase::AwaitingMove(side),
        turn(pos, from, to).1 == TurnOutcome::Captured || turn(pos, from, to).1 is Won,
    ensures
        ({
            let next = turn(pos, from, to).0;
            let over = between(from, to);
            &&& on_board(over) && over != from && over != to
            &&& pos.squares[over].owner() == Some(side.other())
            &&& next.squares[over] == Tile::Empty
            &&& next.squares[from] == Tile::Empty
            &&& next.squares[to] == promoted(pos.squares[from], to.0)
            &&& forall|p: (int, int)|
                p != over && p != from && p != to ==> next.squares[p] == pos.squares[p]
            &&& next.score.of(side) == pos.score.of(side) + 1
            &&& next.score.of(side.other()) == pos.score.of(side.other())
        }),
{
}

} // verus!
