//! The board: tiles, sides, coordinates, the opening layout and the
//! relocation of a piece.

use vstd::prelude::*;

verus! {

/// What a square of the board holds.
///
/// `Cross` and `CrossKing` are the man and the king of the dark side,
/// `Circle` and `CircleKing` those of the light side.
#[derive(Copy, Clone, PartialEq, Eq, Structural, Debug)]
pub enum Tile {
    Cross,
    CrossKing,
    Circle,
    CircleKing,
    Empty,
}

/// The two players.
///
/// Dark starts on rows 0 to 2 and advances toward row 7; Light starts on
/// rows 5 to 7 and advances toward row 0.
#[derive(Copy, Clone, PartialEq, Eq, Structural, Debug)]
pub enum Side {
    Dark,
    Light,
}

impl Side {
    /// The other player.
    pub open spec fn other(self) -> Side {
        match self {
            Side::Dark => Side::Light,
            Side::Light => Side::Dark,
        }
    }

    /// The row offset of one step forward: Dark advances toward higher
    /// rows, Light toward lower ones.
    pub open spec fn forward(self) -> int {
        match self {
            Side::Dark => 1,
            Side::Light => -1,
        }
    }

    /// The row on which a man of this side is crowned.
    pub open spec fn far_row(self) -> int {
        match self {
            Side::Dark => 7,
            Side::Light => 0,
        }
    }

    /// The other player.
    pub fn opponent(self) -> (out: Side)
        ensures
            out == self.other(),
    {
        match self {
            Side::Dark => Side::Light,
            Side::Light => Side::Dark,
        }
    }

    /// The man of this side.
    pub fn man(self) -> (out: Tile)
        ensures
            out == piece(self, false),
    {
        match self {
            Side::Dark => Tile::Cross,
            Side::Light => Tile::Circle,
        }
    }
}

/// The tile that shows a piece of `side`, a king if `king` is set and a
/// man otherwise.
pub open spec fn piece(side: Side, king: bool) -> Tile {
    match side {
        Side::Dark => if king { Tile::CrossKing } else { Tile::Cross },
        Side::Light => if king { Tile::CircleKing } else { Tile::Circle },
    }
}

impl Tile {
    /// The side whose piece this tile shows, if it shows one.
    pub open spec fn owner(self) -> Option<Side> {
        match self {
            Tile::Cross | Tile::CrossKing => Some(Side::Dark),
            Tile::Circle | Tile::CircleKing => Some(Side::Light),
            Tile::Empty => None,
        }
    }

    /// Whether this tile shows a king.
    pub open spec fn is_king(self) -> bool {
        self == Tile::CrossKing || self == Tile::CircleKing
    }

    /// The side whose piece this tile shows, if it shows one.
    pub fn side(self) -> (out: Option<Side>)
        ensures
            out == self.owner(),
    {
        match self {
            Tile::Cross | Tile::CrossKing => Some(Side::Dark),
            Tile::Circle | Tile::CircleKing => Some(Side::Light),
            Tile::Empty => None,
        }
    }
}

/// Return the opponent's man for a piece of either rank; an empty tile has
/// no opponent and is returned as it is.
pub fn opposite_tile(player: Tile) -> (out: Tile)
    ensures
        out == match player.owner() {
            Some(side) => piece(side.other(), false),
            None => Tile::Empty,
        },
{
    match player {
        Tile::Cross => Tile::Circle,
        Tile::CrossKing => Tile::Circle,
        Tile::Circle => Tile::Cross,
        Tile::CircleKing => Tile::Cross,
        Tile::Empty => Tile::Empty,
    }
}

/// Return the king of the side that a tile belongs to. Two tiles have the
/// same king version exactly when they belong to the same side or are both
/// empty, so comparing king versions compares owners.
pub fn king_version(player: Tile) -> (out: Tile)
    ensures
        out == match player.owner() {
            Some(side) => piece(side, true),
            None => Tile::Empty,
        },
{
    match player {
        Tile::Cross => Tile::CrossKing,
        Tile::Circle => Tile::CircleKing,
        Tile::CrossKing => Tile::CrossKing,
        Tile::CircleKing => Tile::CircleKing,
        Tile::Empty => Tile::Empty,
    }
}

/// An 8x8 grid of tiles, addressed as `board[row][col]`.
pub type Board = [[Tile; 8]; 8];

/// Whether a coordinate lies on the board.
pub open spec fn on_board(p: (int, int)) -> bool {
    0 <= p.0 < 8 && 0 <= p.1 < 8
}

/// A machine coordinate as a pair of mathematical integers.
pub open spec fn pt(p: (i32, i32)) -> (int, int) {
    (p.0 as int, p.1 as int)
}

/// The squares of a board as a map from the coordinates on the board to
/// the tile each one holds.
pub open spec fn grid(board: Board) -> Map<(int, int), Tile> {
    Map::new(|p: (int, int)| on_board(p), |p: (int, int)| board[p.0][p.1])
}

/// Two boards with the same squares are the same board.
pub proof fn law_grid_determines_board(a: Board, b: Board)
    requires
        grid(a) == grid(b),
    ensures
        a == b,
{
    assert forall|r: int| 0 <= r < 8 implies a[r] == b[r] by {
        assert forall|c: int| 0 <= c < 8 implies a[r][c] == b[r][c] by {
            assert(on_board((r, c)));
            assert(grid(a)[(r, c)] == a[r][c]);
            assert(grid(b)[(r, c)] == b[r][c]);
        }
        assert(a[r] =~= b[r]);
    }
    assert(a =~= b);
}

/// The tile that the opening layout puts on a square: a dark man on the
/// odd squares of rows 0 to 2, a light man on the odd squares of rows 5 to
/// 7, nothing elsewhere. A square is odd when `row + col` is.
pub open spec fn initial_tile(row: int, col: int) -> Tile {
    if (row + col) % 2 == 1 && 0 <= row < 3 {
        Tile::Cross
    } else if (row + col) % 2 == 1 && 5 <= row < 8 {
        Tile::Circle
    } else {
        Tile::Empty
    }
}

/// The opening layout.
pub open spec fn initial_grid() -> Map<(int, int), Tile> {
    Map::new(|p: (int, int)| on_board(p), |p: (int, int)| initial_tile(p.0, p.1))
}

/// Whether square `(i, j)` comes before square `(row, col)` in row-major
/// order.
pub open spec fn precedes(i: int, j: int, row: int, col: int) -> bool {
    i < row || (i == row && j < col)
}

/// Puts `man` on the odd squares of the rows from `first` up to `end`.
fn place_men(board: &mut Board, man: Tile, first: usize, end: usize)
    requires
        first <= end <= 8,
    ensures
        forall|i: int, j: int|
            0 <= i < 8 && 0 <= j < 8 ==> #[trigger] final(board)[i][j] == (if first <= i < end && (i
                + j) % 2 == 1 {
                man
            } else {
                old(board)[i][j]
            }),
{
    let ghost start = *board;
    let mut y: usize = first;
    while y < end
        invariant
            first <= y <= end <= 8,
            forall|i: int, j: int|
                0 <= i < 8 && 0 <= j < 8 ==> #[trigger] board[i][j] == (if first <= i < y && (i + j)
                    % 2 == 1 {
                    man
                } else {
                    start[i][j]
                }),
        decreases end - y,
    {
        let mut x: usize = 0;
        while x < 8
            invariant
                first <= y < end <= 8,
                x <= 8,
                forall|i: int, j: int|
                    0 <= i < 8 && 0 <= j < 8 ==> #[trigger] board[i][j] == (if first <= i
                        && precedes(i, j, y as int, x as int) && (i + j) % 2 == 1 {
                        man
                    } else {
                        start[i][j]
                    }),
            decreases 8 - x,
        {
            if y % 2 == 1 && x % 2 == 0 {
                board[y][x] = man;
            } else if y % 2 == 0 && x % 2 == 1 {
                board[y][x] = man;
            }
            x += 1;
        }
        y += 1;
    }
}

/// Returns an initialized board.
pub fn initialize_board() -> (board: Board)
    ensures
        grid(board) == initial_grid(),
{
    let mut board: Board = [[Tile::Empty;8];8];
    place_men(&mut board, Tile::Cross, 0, 3);
    place_men(&mut board, Tile::Circle, 5, 8);
    assert(grid(board) =~= initial_grid());
    board
}

/// Returns true if the point is out of bounds.
pub fn out_of_bounds(point: (i32, i32)) -> (out: bool)
    ensures
        out == !on_board(pt(point)),
{
    !(0 <= point.1 && point.1 < 8 && 0 <= point.0 && point.0 < 8)
}

/// Move a point by `y` rows and `x` columns. If that leaves the board,
/// return the point unchanged.
pub fn move_point(point: (i32, i32), y: i32, x: i32) -> (out: (i32, i32))
    ensures
        out == if on_board((point.0 + y, point.1 + x)) {
            ((point.0 + y) as i32, (point.1 + x) as i32)
        } else {
            point
        },
{
    let row: i64 = point.0 as i64 + y as i64;
    let col: i64 = point.1 as i64 + x as i64;
    if 0 <= row && row < 8 && 0 <= col && col < 8 {
        (row as i32, col as i32)
    } else {
        point
    }
}

/// A man that stands on the far row of its side becomes a king; any other
/// tile stays what it is.
pub open spec fn promoted(tile: Tile, row: int) -> Tile {
    if tile == Tile::Cross && row == 7 {
        Tile::CrossKing
    } else if tile == Tile::Circle && row == 0 {
        Tile::CircleKing
    } else {
        tile
    }
}

/// The squares after whatever stands on `from` has gone to `to`: `to` holds
/// it, crowned where it is a man that has reached its far row, and `from`
/// is empty.
pub open spec fn relocated(squares: Map<(int, int), Tile>, from: (int, int), to: (int, int)) -> Map<
    (int, int),
    Tile,
> {
    squares.insert(to, promoted(squares[from], to.0)).insert(from, Tile::Empty)
}

/// Move a tile from one place to the other on the board, crowning a man
/// that lands on its far row. No rule of the game is checked here.
pub fn move_piece(board: Board, from: (i32, i32), to: (i32, i32)) -> (out: Board)
    requires
        on_board(pt(from)),
        on_board(pt(to)),
    ensures
        grid(out) == relocated(grid(board), pt(from), pt(to)),
{
    let mut squares = board;
    let mut moving_piece = squares[from.0 as usize][from.1 as usize];
    if moving_piece == Tile::Cross && to.0 == 7 {
        moving_piece = Tile::CrossKing;
    } else if moving_piece == Tile::Circle && to.0 == 0 {
        moving_piece = Tile::CircleKing;
    }
    squares[to.0 as usize][to.1 as usize] = moving_piece;
    squares[from.0 as usize][from.1 as usize] = Tile::Empty;
    assert(grid(squares) =~= relocated(grid(board), pt(from), pt(to)));
    squares
}

/// The opening layout, square by square: on rows 0 to 2 a square holds a
/// dark man exactly when `row + col` is odd, on rows 5 to 7 it holds a light
/// man exactly when `row + col` is odd, and every other square is empty.
pub proof fn law_opening_layout(row: int, col: int)
    requires
        on_board((row, col)),
    ensures
        row < 3 ==> (initial_grid()[(row, col)] == Tile::Cross <==> (row + col) % 2 == 1),
        row > 4 ==> (initial_grid()[(row, col)] == Tile::Circle <==> (row + col) % 2 == 1),
        !((row < 3 || row > 4) && (row + col) % 2 == 1) ==> initial_grid()[(row, col)]
            == Tile::Empty,
        initial_grid()[(row, col)] != Tile::CrossKing,
        initial_grid()[(row, col)] != Tile::CircleKing,
{
}

/// A piece that goes from one square to another arrives as itself, or as
/// the king of its side: a man that lands on its far row is crowned, a king
/// stays a king wherever it goes, and no piece changes sides. The origin is
/// empty afterwards and no other square changes.
pub proof fn law_promotion(
    squares: Map<(int, int), Tile>,
    from: (int, int),
    to: (int, int),
    side: Side,
)
    requires
        from != to,
    ensures
        squares[from] == piece(side, false) && to.0 == side.far_row() ==> relocated(
            squares,
            from,
            to,
        )[to] == piece(side, true),
        squares[from] == piece(side, false) && to.0 != side.far_row() ==> relocated(
            squares,
            from,
            to,
        )[to] == piece(side, false),
        squares[from].is_king() ==> relocated(squares, from, to)[to] == squares[from],
        relocated(squares, from, to)[to].owner() == squares[from].owner(),
        relocated(squares, from, to)[from] == Tile::Empty,
        forall|p: (int, int)| p != from && p != to ==> relocated(squares, from, to)[p] == squares[p],
{
}

} // verus!
