//! The attack relation on a board, stated over squares and pieces alone.
//!
//! A board is a map from the occupied squares to the piece on each. The
//! definitions here say when a square is attacked; nothing in them depends on
//! how a position stores its pieces.

use vstd::prelude::*;
use crate::geometry::{
    dist, file_of, on_board, rank_of, ray_on_board, ray_square, square_at, valid_square, Direction,
};
use crate::piece::{Piece, PieceKind, Side};

verus! {

/// A piece of the given side and kind stands on `sq`.
pub open spec fn stands(board: Map<int, Piece>, side: Side, kind: PieceKind, sq: int) -> bool {
    board.contains_key(sq) && board[sq] == (Piece { side, kind })
}

/// A pawn of `side` on `src` attacks `dst`: one file to either side and one
/// rank forward.
pub open spec fn pawn_reach(side: Side, src: int, dst: int) -> bool {
    &&& dist(file_of(dst) - file_of(src)) == 1
    &&& rank_of(dst) - rank_of(src) == side.forward()
}

/// A knight on `src` attacks `dst`: two steps along one axis and one along
/// the other.
pub open spec fn knight_reach(src: int, dst: int) -> bool {
    let df = dist(file_of(dst) - file_of(src));
    let dr = dist(rank_of(dst) - rank_of(src));
    (df == 1 && dr == 2) || (df == 2 && dr == 1)
}

/// A king on `src` attacks `dst`: a neighbouring square in any direction.
pub open spec fn king_reach(src: int, dst: int) -> bool {
    let df = dist(file_of(dst) - file_of(src));
    let dr = dist(rank_of(dst) - rank_of(src));
    df <= 1 && dr <= 1 && (df != 0 || dr != 0)
}

/// A piece of the given side and kind stands `df` files and `dr` ranks away
/// from `sq`, on the board.
pub open spec fn stands_offset(
    board: Map<int, Piece>,
    side: Side,
    kind: PieceKind,
    sq: int,
    df: int,
    dr: int,
) -> bool {
    on_board(file_of(sq) + df, rank_of(sq) + dr) && stands(
        board,
        side,
        kind,
        square_at(file_of(sq) + df, rank_of(sq) + dr),
    )
}

/// `sq` is attacked by a pawn of `side`.
pub open spec fn pawn_attacks(board: Map<int, Piece>, side: Side, sq: int) -> bool {
    exists|src: int|
        valid_square(src) && #[trigger] stands(board, side, PieceKind::Pawn, src) && pawn_reach(
            side,
            src,
            sq,
        )
}

/// `sq` is attacked by a knight of `side`.
pub open spec fn knight_attacks(board: Map<int, Piece>, side: Side, sq: int) -> bool {
    exists|src: int|
        valid_square(src) && #[trigger] stands(board, side, PieceKind::Knight, src)
            && knight_reach(src, sq)
}

/// `sq` is attacked by the king of `side`.
pub open spec fn king_attacks(board: Map<int, Piece>, side: Side, sq: int) -> bool {
    exists|src: int|
        valid_square(src) && #[trigger] stands(board, side, PieceKind::King, src) && king_reach(
            src,
            sq,
        )
}

/// Walking from `sq` in direction `dir`, the first occupied square is the
/// one `k` steps away: it is on the board and every square before it is empty.
pub open spec fn first_blocker(board: Map<int, Piece>, sq: int, dir: Direction, k: int) -> bool {
    &&& 1 <= k
    &&& ray_on_board(sq, dir, k)
    &&& board.contains_key(ray_square(sq, dir, k))
    &&& forall|j: int| 1 <= j < k ==> !board.contains_key(#[trigger] ray_square(sq, dir, j))
}

/// A piece of `side` that slides along `dir` stands on `at`: a queen, or a
/// bishop when the direction is diagonal, or a rook when it is not.
pub open spec fn slider_stands(board: Map<int, Piece>, side: Side, dir: Direction, at: int) -> bool {
    ||| stands(board, side, PieceKind::Queen, at)
    ||| dir.diagonal() && stands(board, side, PieceKind::Bishop, at)
    ||| !dir.diagonal() && stands(board, side, PieceKind::Rook, at)
}

/// `sq` is attacked along the ray that leaves it in direction `dir`: the
/// first occupied square on the ray holds a piece of `side` that slides that
/// way. Whatever the first occupied square holds, nothing behind it counts.
pub open spec fn ray_attacks(board: Map<int, Piece>, side: Side, sq: int, dir: Direction) -> bool {
    exists|k: int| #[trigger]
        first_blocker(board, sq, dir, k) && slider_stands(board, side, dir, ray_square(sq, dir, k))
}

/// `sq` is attacked along a file or a rank by a rook or queen of `side`.
pub open spec fn orthogonal_attacks(board: Map<int, Piece>, side: Side, sq: int) -> bool {
    ||| ray_attacks(board, side, sq, Direction::North)
    ||| ray_attacks(board, side, sq, Direction::South)
    ||| ray_attacks(board, side, sq, Direction::East)
    ||| ray_attacks(board, side, sq, Direction::West)
}

/// `sq` is attacked along a diagonal by a bishop or queen of `side`.
pub open spec fn diagonal_attacks(board: Map<int, Piece>, side: Side, sq: int) -> bool {
    ||| ray_attacks(board, side, sq, Direction::NorthEast)
    ||| ray_attacks(board, side, sq, Direction::NorthWest)
    ||| ray_attacks(board, side, sq, Direction::SouthEast)
    ||| ray_attacks(board, side, sq, Direction::SouthWest)
}

/// The answer to the query "is `sq` attacked by `side` in the manner of
/// `kind`". Pawns, knights and kings answer for pieces of their own kind.
/// The rook query covers the four orthogonal rays and the bishop query the
/// four diagonal ones, each counting a queen found there as well; the queen
/// query covers all eight rays.
pub open spec fn attacked_by(board: Map<int, Piece>, side: Side, kind: PieceKind, sq: int) -> bool {
    match kind {
        PieceKind::Pawn => pawn_attacks(board, side, sq),
        PieceKind::Knight => knight_attacks(board, side, sq),
        PieceKind::Bishop => diagonal_attacks(board, side, sq),
        PieceKind::Rook => orthogonal_attacks(board, side, sq),
        PieceKind::Queen => orthogonal_attacks(board, side, sq) || diagonal_attacks(board, side, sq),
        PieceKind::King => king_attacks(board, side, sq),
    }
}

/// `sq` is attacked by some piece of `side`.
pub open spec fn attacked_by_side(board: Map<int, Piece>, side: Side, sq: int) -> bool {
    ||| attacked_by(board, side, PieceKind::Pawn, sq)
    ||| attacked_by(board, side, PieceKind::Knight, sq)
    ||| attacked_by(board, side, PieceKind::Bishop, sq)
    ||| attacked_by(board, side, PieceKind::Rook, sq)
    ||| attacked_by(board, side, PieceKind::Queen, sq)
    ||| attacked_by(board, side, PieceKind::King, sq)
}

/// `sq` is attacked by some piece of either side.
pub open spec fn attacked(board: Map<int, Piece>, sq: int) -> bool {
    attacked_by_side(board, Side::White, sq) || attacked_by_side(board, Side::Black, sq)
}

/// `k` is the one square on which a king of `side` stands.
pub open spec fn sole_king(board: Map<int, Piece>, side: Side, k: int) -> bool {
    &&& valid_square(k)
    &&& stands(board, side, PieceKind::King, k)
    &&& forall|j: int|
        valid_square(j) && #[trigger] stands(board, side, PieceKind::King, j) ==> j == k
}

/// `side` has exactly one king.
pub open spec fn has_sole_king(board: Map<int, Piece>, side: Side) -> bool {
    exists|k: int| sole_king(board, side, k)
}

/// The square of the king of `side`, where it has exactly one.
pub open spec fn king_square(board: Map<int, Piece>, side: Side) -> int {
    choose|k: int| sole_king(board, side, k)
}

/// `side` has exactly one king and the other side attacks its square.
pub open spec fn in_check(board: Map<int, Piece>, side: Side) -> bool {
    has_sole_king(board, side) && attacked_by_side(board, side.other(), king_square(board, side))
}

} // verus!
