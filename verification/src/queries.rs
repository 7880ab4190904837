//! The queries on a position: attacks by kind and by side, and the test for
//! a king in check.

use vstd::prelude::*;
use crate::attacks::{
    attacked, attacked_by, attacked_by_side, has_sole_king, in_check, king_square, sole_king,
    stands,
};
use crate::piece::{InvalidPosition, PieceKind, Side};
use crate::position::Bitboards;

verus! {

impl Bitboards {
    /// Tells whether `pos` is attacked by `side` in the manner of `kind`.
    /// Pawns, knights and kings answer for pieces of their own kind. The
    /// rook query walks the four orthogonal rays and the bishop query the
    /// four diagonal ones, and each counts a queen found there as well; the
    /// queen query walks all eight.
    pub fn is_attacked_by_piece(&self, pos: usize, side: Side, kind: PieceKind) -> (b: bool)
        requires
            pos < 64,
        ensures
            b == attacked_by(self@, side, kind, pos as int),
    {
        match kind {
            PieceKind::Pawn => self.is_attacked_by_pawns(pos, side),
            PieceKind::Knight => self.is_attacked_by_knights(pos, side),
            PieceKind::Bishop => self.is_attacked_diagonally(pos, side),
            PieceKind::Rook => self.is_attacked_orthogonally(pos, side),
            PieceKind::Queen => self.is_attacked_orthogonally(pos, side)
                || self.is_attacked_diagonally(pos, side),
            PieceKind::King => self.is_attacked_by_king(pos, side),
        }
    }

    /// Tells whether `pos` is attacked by some piece of `side`.
    pub fn is_attacked_by_side(&self, pos: usize, side: Side) -> (b: bool)
        requires
            pos < 64,
        ensures
            b == attacked_by_side(self@, side, pos as int),
    {
        self.is_attacked_by_piece(pos, side, PieceKind::Pawn) || self.is_attacked_by_piece(
            pos,
            side,
            PieceKind::Knight,
        ) || self.is_attacked_by_piece(pos, side, PieceKind::Bishop) || self.is_attacked_by_piece(
            pos,
            side,
            PieceKind::Rook,
        ) || self.is_attacked_by_piece(pos, side, PieceKind::Queen) || self.is_attacked_by_piece(
            pos,
            side,
            PieceKind::King,
        )
    }

    /// Tells whether `pos` is attacked by a white pawn.
    pub fn is_attacked_by_white_pawns(&self, pos: usize) -> (b: bool)
        requires
            pos < 64,
        ensures
            b == attacked_by(self@, Side::White, PieceKind::Pawn, pos as int),
    {
        self.is_attacked_by_piece(pos, Side::White, PieceKind::Pawn)
    }

    /// Tells whether `pos` is attacked by a white knight.
    pub fn is_attacked_by_white_knights(&self, pos: usize) -> (b: bool)
        requires
            pos < 64,
        ensures
            b == attacked_by(self@, Side::White, PieceKind::Knight, pos as int),
    {
        self.is_attacked_by_piece(pos, Side::White, PieceKind::Knight)
    }

    /// Tells whether `pos` is attacked along a diagonal by a white bishop or queen.
    pub fn is_attacked_by_white_bishops(&self, pos: usize) -> (b: bool)
        requires
            pos < 64,
        ensures
            b == attacked_by(self@, Side::White, PieceKind::Bishop, pos as int),
    {
        self.is_attacked_by_piece(pos, Side::White, PieceKind::Bishop)
    }

    /// Tells whether `pos` is attacked along a file or a rank by a white rook or queen.
    pub fn is_attacked_by_white_rooks(&self, pos: usize) -> (b: bool)
        requires
            pos < 64,
        ensures
            b == attacked_by(self@, Side::White, PieceKind::Rook, pos as int),
    {
        self.is_attacked_by_piece(pos, Side::White, PieceKind::Rook)
    }

    /// Tells whether `pos` is attacked along any of the eight rays by a white queen, or by a white rook or bishop along a ray it slides on.
    pub fn is_attacked_by_white_queens(&self, pos: usize) -> (b: bool)
        requires
            pos < 64,
        ensures
            b == attacked_by(self@, Side::White, PieceKind::Queen, pos as int),
    {
        self.is_attacked_by_piece(pos, Side::White, PieceKind::Queen)
    }

    /// Tells whether `pos` is attacked by the white king.
    pub fn is_attacked_by_white_king(&self, pos: usize) -> (b: bool)
        requires
            pos < 64,
        ensures
            b == attacked_by(self@, Side::White, PieceKind::King, pos as int),
    {
        self.is_attacked_by_piece(pos, Side::White, PieceKind::King)
    }

    /// Tells whether `pos` is attacked by a black pawn.
    pub fn is_attacked_by_black_pawns(&self, pos: usize) -> (b: bool)
        requires
            pos < 64,
        ensures
            b == attacked_by(self@, Side::Black, PieceKind::Pawn, pos as int),
    {
        self.is_attacked_by_piece(pos, Side::Black, PieceKind::Pawn)
    }

    /// Tells whether `pos` is attacked by a black knight.
    pub fn is_attacked_by_black_knights(&self, pos: usize) -> (b: bool)
        requires
            pos < 64,
        ensures
            b == attacked_by(self@, Side::Black, PieceKind::Knight, pos as int),
    {
        self.is_attacked_by_piece(pos, Side::Black, PieceKind::Knight)
    }

    /// Tells whether `pos` is attacked along a diagonal by a black bishop or queen.
    pub fn is_attacked_by_black_bishops(&self, pos: usize) -> (b: bool)
        requires
            pos < 64,
        ensures
            b == attacked_by(self@, Side::Black, PieceKind::Bishop, pos as int),
    {
        self.is_attacked_by_piece(pos, Side::Black, PieceKind::Bishop)
    }

    /// Tells whether `pos` is attacked along a file or a rank by a black rook or queen.
    pub fn is_attacked_by_black_rooks(&self, pos: usize) -> (b: bool)
        requires
            pos < 64,
        ensures
            b == attacked_by(self@, Side::Black, PieceKind::Rook, pos as int),
    {
        self.is_attacked_by_piece(pos, Side::Black, PieceKind::Rook)
    }

    /// Tells whether `pos` is attacked along any of the eight rays by a black queen, or by a black rook or bishop along a ray it slides on.
    pub fn is_attacked_by_black_queens(&self, pos: usize) -> (b: bool)
        requires
            pos < 64,
        ensures
            b == attacked_by(self@, Side::Black, PieceKind::Queen, pos as int),
    {
        self.is_attacked_by_piece(pos, Side::Black, PieceKind::Queen)
    }

    /// Tells whether `pos` is attacked by the black king.
    pub fn is_attacked_by_black_king(&self, pos: usize) -> (b: bool)
        requires
            pos < 64,
        ensures
            b == attacked_by(self@, Side::Black, PieceKind::King, pos as int),
    {
        self.is_attacked_by_piece(pos, Side::Black, PieceKind::King)
    }

    /// Tells whether `pos` is attacked by some white piece: by a pawn, knight,
    /// bishop, rook, queen or king.
    pub fn is_attacked_by_white_pieces(&self, pos: usize) -> (b: bool)
        requires
            pos < 64,
        ensures
            b == attacked_by_side(self@, Side::White, pos as int),
    {
        self.is_attacked_by_white_pawns(pos) || self.is_attacked_by_white_knights(pos)
            || self.is_attacked_by_white_bishops(pos) || self.is_attacked_by_white_rooks(pos)
            || self.is_attacked_by_white_queens(pos) || self.is_attacked_by_white_king(pos)
    }

    /// Tells whether `pos` is attacked by some black piece: by a pawn, knight,
    /// bishop, rook, queen or king.
    pub fn is_attacked_by_black_pieces(&self, pos: usize) -> (b: bool)
        requires
            pos < 64,
        ensures
            b == attacked_by_side(self@, Side::Black, pos as int),
    {
        self.is_attacked_by_black_pawns(pos) || self.is_attacked_by_black_knights(pos)
            || self.is_attacked_by_black_bishops(pos) || self.is_attacked_by_black_rooks(pos)
            || self.is_attacked_by_black_queens(pos) || self.is_attacked_by_black_king(pos)
    }

    /// Tells whether `pos` is attacked by some piece of either side.
    pub fn is_attacked(&self, pos: usize) -> (b: bool)
        requires
            pos < 64,
        ensures
            b == attacked(self@, pos as int),
    {
        self.is_attacked_by_white_pieces(pos) || self.is_attacked_by_black_pieces(pos)
    }

    /// The square of the king of `side`, or `None` when the side has no king
    /// or more than one.
    pub fn king_position(&self, side: Side) -> (r: Option<usize>)
        ensures
            r is Some <==> has_sole_king(self@, side),
            r matches Some(k) ==> k < 64 && sole_king(self@, side, k as int) && k == king_square(
                self@,
                side,
            ),
    {
        let mut found: Option<usize> = None;
        let mut sq: usize = 0;
        while sq < 64
            invariant
                sq <= 64,
                match found {
                    Some(k) => k < sq && stands(self@, side, PieceKind::King, k as int)
                        && forall|j: int|
                        0 <= j < sq && #[trigger] stands(self@, side, PieceKind::King, j) ==> j
                            == k,
                    None => forall|j: int|
                        0 <= j < sq ==> !#[trigger] stands(self@, side, PieceKind::King, j),
                },
            decreases 64 - sq,
        {
            if self.holds(side, PieceKind::King, sq) {
                if found.is_some() {
                    proof {
                        let first = found->0 as int;
                        assert forall|k: int| !sole_king(self@, side, k) by {
                            if sole_king(self@, side, k) {
                                assert(stands(self@, side, PieceKind::King, first));
                                assert(stands(self@, side, PieceKind::King, sq as int));
                            }
                        }
                    }
                    return None;
                }
                found = Some(sq);
            }
            sq += 1;
        }
        proof {
            match found {
                Some(k) => {
                    assert(sole_king(self@, side, k as int));
                    let c = king_square(self@, side);
                    assert(sole_king(self@, side, c));
                },
                None => {
                    assert forall|k: int| !sole_king(self@, side, k) by {}
                },
            }
        }
        found
    }

    /// Tells whether the king of `side` is attacked by the other side. Fails
    /// when `side` does not have exactly one king.
    pub fn is_in_check(&self, side: Side) -> (r: Result<bool, InvalidPosition>)
        ensures
            r is Ok <==> has_sole_king(self@, side),
            r matches Ok(b) ==> b == in_check(self@, side) && b == attacked_by_side(
                self@,
                side.other(),
                king_square(self@, side),
            ),
    {
        match self.king_position(side) {
            Some(k) => Ok(self.is_attacked_by_side(k, side.opponent())),
            None => Err(InvalidPosition),
        }
    }
}

} // verus!
