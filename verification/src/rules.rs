//! The rules of a single move: what makes a move legal, what it captures,
//! when a capture is forced, and the count of captures.

use vstd::prelude::*;
use crate::board::{
    grid, king_version, move_point, on_board, opposite_tile, out_of_bounds, precedes, pt, Board,
    Side, Tile,
};

verus! {

/// What the rules say of a proposed move.
#[derive(Copy, Clone, PartialEq, Eq, Structural, Debug)]
pub enum MoveResult {
    /// The move breaks a rule.
    Invalid,
    /// A step onto a neighbouring diagonal square, with no capture.
    Plain,
    /// A jump over an opposing piece, which is taken.
    Capture,
}

/// The number of pieces that each side has captured.
#[derive(Copy, Clone, PartialEq, Eq, Structural, Debug)]
pub struct Score {
    pub dark: u32,
    pub light: u32,
}

impl Score {
    /// The captures made by `side`.
    pub open spec fn of(self, side: Side) -> u32 {
        match side {
            Side::Dark => self.dark,
            Side::Light => self.light,
        }
    }

    /// This score with one more capture for `side` and the other count as
    /// it was.
    pub open spec fn credited(self, side: Side) -> Score
        recommends
            self.of(side) < u32::MAX,
    {
        match side {
            Side::Dark => Score { dark: (self.dark + 1) as u32, light: self.light },
            Side::Light => Score { dark: self.dark, light: (self.light + 1) as u32 },
        }
    }

    /// The captures made by `side`.
    pub fn get(&self, side: Side) -> (out: u32)
        ensures
            out == self.of(side),
    {
        match side {
            Side::Dark => self.dark,
            Side::Light => self.light,
        }
    }
}

/// Increment the score of a player.
pub fn add_score(score: &mut Score, side: Side)
    requires
        old(score).of(side) < u32::MAX,
    ensures
        *final(score) == old(score).credited(side),
{
    match side {
        Side::Dark => {
            score.dark = score.dark + 1;
        },
        Side::Light => {
            score.light = score.light + 1;
        },
    }
}

/// Whether `to` lies two squares from `from` along a diagonal.
pub open spec fn is_jump(from: (int, int), to: (int, int)) -> bool {
    (to.0 - from.0 == 2 || to.0 - from.0 == -2) && (to.1 - from.1 == 2 || to.1 - from.1 == -2)
}

/// The square halfway between two squares.
pub open spec fn between(from: (int, int), to: (int, int)) -> (int, int) {
    ((from.0 + to.0) / 2, (from.1 + to.1) / 2)
}

/// Whether the move from `from` to `to` is a jump over a piece of the side
/// opposing `side`, man or king.
pub open spec fn jumps_enemy(
    squares: Map<(int, int), Tile>,
    from: (int, int),
    to: (int, int),
    side: Side,
) -> bool {
    is_jump(from, to) && squares[between(from, to)].owner() == Some(side.other())
}

/// Whether `to` is one diagonal step from `from` in a direction open to the
/// moving piece: forward for `side`, and backward as well for a king.
pub open spec fn is_step(from: (int, int), to: (int, int), side: Side, king: bool) -> bool {
    (to.1 - from.1 == 1 || to.1 - from.1 == -1) && (to.0 - from.0 == side.forward() || (king
        && to.0 - from.0 == -side.forward()))
}

/// The verdict on a move of `side` from `from` to `to`.
///
/// A move is invalid when either square is off the board, when the two are
/// the same square, or when the destination is occupied. Otherwise a jump
/// over an opposing piece is a capture, in any of the four diagonal
/// directions and whatever the rank of the moving piece; a single step is a
/// plain move, forward for a man and either way for a king; anything else is
/// invalid. Whose piece stands on `from` is not looked at.
pub open spec fn verdict(
    squares: Map<(int, int), Tile>,
    from: (int, int),
    to: (int, int),
    side: Side,
) -> MoveResult {
    if !on_board(from) || !on_board(to) || from == to {
        MoveResult::Invalid
    } else if squares[to] != Tile::Empty {
        MoveResult::Invalid
    } else if jumps_enemy(squares, from, to, side) {
        MoveResult::Capture
    } else if is_step(from, to, side, squares[from].is_king()) {
        MoveResult::Plain
    } else {
        MoveResult::Invalid
    }
}

/// The squares once the verdict on a move has been given: a capture takes
/// the piece that was jumped over, any other verdict changes nothing. The
/// moving piece itself has not moved yet.
pub open spec fn after_verdict(
    squares: Map<(int, int), Tile>,
    from: (int, int),
    to: (int, int),
    side: Side,
) -> Map<(int, int), Tile> {
    if verdict(squares, from, to, side) == MoveResult::Capture {
        squares.insert(between(from, to), Tile::Empty)
    } else {
        squares
    }
}

/// The score once the verdict on a move has been given: a capture counts
/// one for the side that moved.
pub open spec fn score_after_verdict(
    score: Score,
    squares: Map<(int, int), Tile>,
    from: (int, int),
    to: (int, int),
    side: Side,
) -> Score {
    if verdict(squares, from, to, side) == MoveResult::Capture {
        score.credited(side)
    } else {
        score
    }
}

/// The row offset that the move computations call `dir`: one step backward
/// for the side.
fn backward_step(side: Side) -> (dir: i32)
    ensures
        dir == -side.forward(),
{
    match side {
        Side::Dark => -1,
        Side::Light => 1,
    }
}

fn same_point(a: (i32, i32), b: (i32, i32)) -> (same: bool)
    ensures
        same == (pt(a) == pt(b)),
{
    a.0 == b.0 && a.1 == b.1
}

fn tile_of(board: &Board, point: (i32, i32)) -> (tile: Tile)
    requires
        on_board(pt(point)),
    ensures
        tile == grid(*board)[pt(point)],
{
    board[point.0 as usize][point.1 as usize]
}

/// The square that a move from `from` to `to` jumps over, where the move is
/// a jump over an opposing piece. The four directions are tried in the order
/// forward right, forward left, backward left, backward right.
fn jumped_square(board: &Board, from: (i32, i32), to: (i32, i32), side: Side) -> (out: Option<
    (i32, i32),
>)
    requires
        on_board(pt(from)),
        on_board(pt(to)),
        pt(from) != pt(to),
    ensures
        out.is_some() <==> jumps_enemy(grid(*board), pt(from), pt(to), side),
        out matches Some(over) ==> pt(over) == between(pt(from), pt(to)) && on_board(pt(over)),
{
    let dir: i32 = backward_step(side);
    let forward_left_1 = move_point(from, dir * -1, dir * -1);
    let forward_left_2 = move_point(from, dir * -2, dir * -2);
    let forward_right_1 = move_point(from, dir * -1, dir * 1);
    let forward_right_2 = move_point(from, dir * -2, dir * 2);
    let backward_left_1 = move_point(from, dir * 1, dir * -1);
    let backward_right_1 = move_point(from, dir * 1, dir * 1);
    let backward_left_2 = move_point(from, dir * 2, dir * -2);
    let backward_right_2 = move_point(from, dir * 2, dir * 2);

    let forward_right_spot = king_version(tile_of(board, forward_right_1));
    let forward_left_spot = king_version(tile_of(board, forward_left_1));
    let backward_left_spot = king_version(tile_of(board, backward_left_1));
    let backward_right_spot = king_version(tile_of(board, backward_right_1));

    let opposite_king = king_version(opposite_tile(side.man()));

    if same_point(to, forward_right_2) && forward_right_spot == opposite_king {
        Some(forward_right_1)
    } else if same_point(to, forward_left_2) && forward_left_spot == opposite_king {
        Some(forward_left_1)
    } else if same_point(to, backward_left_2) && backward_left_spot == opposite_king {
        Some(backward_left_1)
    } else if same_point(to, backward_right_2) && backward_right_spot == opposite_king {
        Some(backward_right_1)
    } else {
        None
    }
}

/// Give the verdict on a move without changing anything.
pub fn classify_move(board: &Board, from: (i32, i32), to: (i32, i32), side: Side) -> (result:
    MoveResult)
    ensures
        result == verdict(grid(*board), pt(from), pt(to), side),
{
    if out_of_bounds(from) || same_point(from, to) || out_of_bounds(to) {
        return MoveResult::Invalid;
    }
    if tile_of(board, to) != Tile::Empty {
        return MoveResult::Invalid;
    }
    if jumped_square(board, from, to, side).is_some() {
        return MoveResult::Capture;
    }
    let here = tile_of(board, from);
    let is_king = here == Tile::CrossKing || here == Tile::CircleKing;

    let dir: i32 = backward_step(side);
    let forward_left_1 = move_point(from, dir * -1, dir * -1);
    let forward_right_1 = move_point(from, dir * -1, dir * 1);
    let backward_left_1 = move_point(from, dir * 1, dir * -1);
    let backward_right_1 = move_point(from, dir * 1, dir * 1);

    if (same_point(to, forward_right_1) || same_point(to, forward_left_1)) || (is_king && (same_point(
        to,
        backward_left_1,
    ) || same_point(to, backward_right_1))) {
        return MoveResult::Plain;
    }
    MoveResult::Invalid
}

/// Check if a move is valid according to the rules of the game, and carry
/// out the capture if it is one: the piece that was jumped over leaves the
/// board and the side that moved scores. The moving piece stays where it is;
/// `move_piece` relocates it. Only a capture adds to a count, so only then
/// must the count of the side have room to grow.
pub fn is_valid_move(
    board: &mut Board,
    score: &mut Score,
    from: (i32, i32),
    to: (i32, i32),
    side: Side,
) -> (result: MoveResult)
    requires
        verdict(grid(*old(board)), pt(from), pt(to), side) == MoveResult::Capture ==> old(
            score,
        ).of(side) < u32::MAX,
    ensures
        result == verdict(grid(*old(board)), pt(from), pt(to), side),
        grid(*final(board)) == after_verdict(grid(*old(board)), pt(from), pt(to), side),
        *final(score) == score_after_verdict(
            *old(score),
            grid(*old(board)),
            pt(from),
            pt(to),
            side,
        ),
        result != MoveResult::Capture ==> *final(board) == *old(board),
{
    let result = classify_move(board, from, to, side);
    if result == MoveResult::Capture {
        match jumped_square(board, from, to, side) {
            Some(over) => {
                board[over.0 as usize][over.1 as usize] = Tile::Empty;
                add_score(score, side);
            },
            None => {},
        }
    }
    assert(grid(*board) =~= after_verdict(grid(*old(board)), pt(from), pt(to), side));
    result
}

/// Whether the move from `from` to `to` is a capture made by a piece of
/// `side`.
pub open spec fn is_capture_by(
    squares: Map<(int, int), Tile>,
    from: (int, int),
    to: (int, int),
    side: Side,
) -> bool {
    squares[from].owner() == Some(side) && verdict(squares, from, to, side) == MoveResult::Capture
}

/// Whether some piece of `side`, man or king, has a capture to make.
pub open spec fn capture_available(squares: Map<(int, int), Tile>, side: Side) -> bool {
    exists|from: (int, int), to: (int, int)| is_capture_by(squares, from, to, side)
}

/// Whether a piece on `from` could jump in the direction `(dy, dx)`: the
/// next square that way holds a piece of the side opposing `side` and the
/// one behind it is on the board and empty.
pub open spec fn jump_open(
    squares: Map<(int, int), Tile>,
    from: (int, int),
    dy: int,
    dx: int,
    side: Side,
) -> bool {
    let over = (from.0 + dy, from.1 + dx);
    let land = (from.0 + 2 * dy, from.1 + 2 * dx);
    on_board(land) && squares[over].owner() == Some(side.other()) && squares[land] == Tile::Empty
}

/// Whether a piece of `side` stands on `from` with a jump open to it in one
/// of the four diagonal directions.
pub open spec fn can_capture_from(squares: Map<(int, int), Tile>, from: (int, int), side: Side) -> bool {
    on_board(from) && squares[from].owner() == Some(side) && (jump_open(squares, from, -1, -1, side)
        || jump_open(squares, from, -1, 1, side) || jump_open(squares, from, 1, -1, side)
        || jump_open(squares, from, 1, 1, side))
}

/// A piece has a capture to make exactly when a jump is open to it in one
/// of the four diagonal directions: the forced-capture check and the verdict
/// on a move agree on what a capture is.
pub proof fn law_capture_directions(squares: Map<(int, int), Tile>, from: (int, int), side: Side)
    ensures
        can_capture_from(squares, from, side) <==> exists|to: (int, int)|
            is_capture_by(squares, from, to, side),
{
    if can_capture_from(squares, from, side) {
        let to = if jump_open(squares, from, -1, -1, side) {
            (from.0 - 2, from.1 - 2)
        } else if jump_open(squares, from, -1, 1, side) {
            (from.0 - 2, from.1 + 2)
        } else if jump_open(squares, from, 1, -1, side) {
            (from.0 + 2, from.1 - 2)
        } else {
            (from.0 + 2, from.1 + 2)
        };
        assert(is_capture_by(squares, from, to, side));
    }
    if exists|to: (int, int)| is_capture_by(squares, from, to, side) {
        let to = choose|to: (int, int)| is_capture_by(squares, from, to, side);
        assert(is_jump(from, to));
        assert(can_capture_from(squares, from, side));
    }
}

/// Check if a piece can be captured: the square `oppo` and the landing
/// square `final_loc` are both on the board, `oppo` holds a piece of the side
/// that `target` belongs to, man or king, and `final_loc` is empty.
pub fn can_make_move(board: &Board, target: Tile, oppo: (i32, i32), final_loc: (i32, i32)) -> (out:
    bool)
    ensures
        out == (on_board(pt(final_loc)) && on_board(pt(oppo)) && grid(*board)[pt(oppo)].owner()
            == target.owner() && grid(*board)[pt(final_loc)] == Tile::Empty),
{
    !out_of_bounds(final_loc) && !out_of_bounds(oppo) && king_version(tile_of(board, oppo))
        == king_version(target) && tile_of(board, final_loc) == Tile::Empty
}

/// Return true if the player can capture an opponent's piece. The squares
/// are looked at in row-major order and nothing is changed.
pub fn can_score(board: &Board, side: Side) -> (out: bool)
    ensures
        out == capture_available(grid(*board), side),
{
    let opposite = opposite_tile(side.man());
    let mut y: usize = 0;
    while y < 8
        invariant
            y <= 8,
            opposite.owner() == Some(side.other()),
            forall|p: (int, int)|
                on_board(p) && p.0 < y ==> !#[trigger] can_capture_from(grid(*board), p, side),
        decreases 8 - y,
    {
        let mut x: usize = 0;
        while x < 8
            invariant
                y < 8,
                x <= 8,
                opposite.owner() == Some(side.other()),
                forall|p: (int, int)|
                    on_board(p) && precedes(p.0, p.1, y as int, x as int) ==> !#[trigger] can_capture_from(
                        grid(*board),
                        p,
                        side,
                    ),
            decreases 8 - x,
        {
            let here = (y as i32, x as i32);
            let tile = tile_of(board, here);
            let is_match = king_version(tile) == king_version(side.man());
            let top_left = move_point(here, -1, -1);
            let top_right = move_point(here, -1, 1);
            let top_left_2 = move_point(here, -2, -2);
            let top_right_2 = move_point(here, -2, 2);
            let bot_left = move_point(here, 1, -1);
            let bot_right = move_point(here, 1, 1);
            let bot_left_2 = move_point(here, 2, -2);
            let bot_right_2 = move_point(here, 2, 2);

            let mut score = false;
            if is_match {
                score = score || can_make_move(board, opposite, top_left, top_left_2);
                score = score || can_make_move(board, opposite, top_right, top_right_2);
                score = score || can_make_move(board, opposite, bot_left, bot_left_2);
                score = score || can_make_move(board, opposite, bot_right, bot_right_2);
            }
            assert(score == can_capture_from(grid(*board), pt(here), side));
            if score {
                proof {
                    law_capture_directions(grid(*board), pt(here), side);
                }
                return score;
            }
            x += 1;
        }
        y += 1;
    }
    proof {
        assert forall|from: (int, int), to: (int, int)|
            !is_capture_by(grid(*board), from, to, side) by {
            law_capture_directions(grid(*board), from, side);
            assert(!can_capture_from(grid(*board), from, side));
        }
    }
    false
}

/// A move that names a square off the board, or the same square twice, is
/// invalid whatever the board holds.
pub proof fn law_off_board_is_invalid(
    squares: Map<(int, int), Tile>,
    from: (int, int),
    to: (int, int),
    side: Side,
)
    requires
        !on_board(from) || !on_board(to) || from == to,
    ensures
        verdict(squares, from, to, side) == MoveResult::Invalid,
{
}

/// Asking twice gives the same answer: a verdict other than a capture
/// leaves the squares and the score as they were, so the verdict on what is
/// left is the verdict that was given. A capture takes the piece that made
/// it one, so the same move asked again is invalid.
pub proof fn law_verdict_repeats(
    squares: Map<(int, int), Tile>,
    score: Score,
    from: (int, int),
    to: (int, int),
    side: Side,
)
    ensures
        verdict(squares, from, to, side) != MoveResult::Capture ==> {
            &&& after_verdict(squares, from, to, side) == squares
            &&& score_after_verdict(score, squares, from, to, side) == score
            &&& verdict(after_verdict(squares, from, to, side), from, to, side) == verdict(
                squares,
                from,
                to,
                side,
            )
        },
        verdict(squares, from, to, side) == MoveResult::Capture ==> verdict(
            after_verdict(squares, from, to, side),
            from,
            to,
            side,
        ) == MoveResult::Invalid,
{
}

/// A capture takes exactly one piece and counts exactly one: the square
/// that was jumped over held an opposing piece and is empty afterwards, it
/// is neither the origin nor the destination, every other square holds what
/// it held, the side that moved has one capture more, as long as its count
/// can still grow, and the other side as many as before.
pub proof fn law_capture_takes_one_piece(
    squares: Map<(int, int), Tile>,
    score: Score,
    from: (int, int),
    to: (int, int),
    side: Side,
)
    requires
        verdict(squares, from, to, side) == MoveResult::Capture,
    ensures
        on_board(between(from, to)),
        between(from, to) != from,
        between(from, to) != to,
        squares[between(from, to)].owner() == Some(side.other()),
        after_verdict(squares, from, to, side)[between(from, to)] == Tile::Empty,
        forall|p: (int, int)|
            p != between(from, to) ==> after_verdict(squares, from, to, side)[p] == squares[p],
        after_verdict(squares, from, to, side).dom() == squares.dom().insert(between(from, to)),
        score.of(side) < u32::MAX ==> score_after_verdict(score, squares, from, to, side).of(side)
            == score.of(side) + 1,
        score_after_verdict(score, squares, from, to, side).of(side.other()) == score.of(
            side.other(),
        ),
{
}

} // verus!
