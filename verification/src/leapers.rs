//! Attacks by pawns, knights and kings: pieces that reach a fixed set of
//! squares around them.

use vstd::prelude::*;
use crate::attacks::{
    king_attacks, king_reach, knight_attacks, knight_reach, pawn_attacks, pawn_reach, stands,
    stands_offset,
};
use crate::geometry::{
    dist, file_of, lemma_coords_square, lemma_square_coords, offset_square, rank_of,
    square_at, valid_square,
};
use crate::piece::{Piece, PieceKind, Side};
use crate::position::Bitboards;

verus! {

/// A piece found at an offset from `sq` stands on a valid square whose
/// coordinates differ from those of `sq` by that offset.
proof fn lemma_offset_source(
    board: Map<int, Piece>,
    side: Side,
    kind: PieceKind,
    sq: int,
    df: int,
    dr: int,
) -> (src: int)
    requires
        stands_offset(board, side, kind, sq, df, dr),
    ensures
        valid_square(src),
        stands(board, side, kind, src),
        file_of(src) - file_of(sq) == df,
        rank_of(src) - rank_of(sq) == dr,
{
    lemma_square_coords(file_of(sq) + df, rank_of(sq) + dr);
    square_at(file_of(sq) + df, rank_of(sq) + dr)
}

/// A piece on a valid square is found at the offset of its coordinates from
/// those of `sq`.
proof fn lemma_source_offset(
    board: Map<int, Piece>,
    side: Side,
    kind: PieceKind,
    sq: int,
    src: int,
)
    requires
        valid_square(src),
        stands(board, side, kind, src),
    ensures
        stands_offset(
            board,
            side,
            kind,
            sq,
            file_of(src) - file_of(sq),
            rank_of(src) - rank_of(sq),
        ),
{
    lemma_coords_square(src);
}

/// The squares from which a knight attacks `sq` are the eight at a knight's
/// offsets from it.
pub proof fn lemma_knight_offsets(board: Map<int, Piece>, side: Side, sq: int)
    ensures
        knight_attacks(board, side, sq) == ({
            let k = PieceKind::Knight;
            ||| stands_offset(board, side, k, sq, 1, 2)
            ||| stands_offset(board, side, k, sq, 2, 1)
            ||| stands_offset(board, side, k, sq, 2, -1)
            ||| stands_offset(board, side, k, sq, 1, -2)
            ||| stands_offset(board, side, k, sq, -1, -2)
            ||| stands_offset(board, side, k, sq, -2, -1)
            ||| stands_offset(board, side, k, sq, -2, 1)
            ||| stands_offset(board, side, k, sq, -1, 2)
        }),
{
    let k = PieceKind::Knight;
    if knight_attacks(board, side, sq) {
        let src = choose|src: int|
            valid_square(src) && #[trigger] stands(board, side, k, src) && knight_reach(src, sq);
        lemma_source_offset(board, side, k, sq, src);
    }
    if stands_offset(board, side, k, sq, 1, 2) {
        let src = lemma_offset_source(board, side, k, sq, 1, 2);
        assert(knight_reach(src, sq));
    }
    if stands_offset(board, side, k, sq, 2, 1) {
        let src = lemma_offset_source(board, side, k, sq, 2, 1);
        assert(knight_reach(src, sq));
    }
    if stands_offset(board, side, k, sq, 2, -1) {
        let src = lemma_offset_source(board, side, k, sq, 2, -1);
        assert(knight_reach(src, sq));
    }
    if stands_offset(board, side, k, sq, 1, -2) {
        let src = lemma_offset_source(board, side, k, sq, 1, -2);
        assert(knight_reach(src, sq));
    }
    if stands_offset(board, side, k, sq, -1, -2) {
        let src = lemma_offset_source(board, side, k, sq, -1, -2);
        assert(knight_reach(src, sq));
    }
    if stands_offset(board, side, k, sq, -2, -1) {
        let src = lemma_offset_source(board, side, k, sq, -2, -1);
        assert(knight_reach(src, sq));
    }
    if stands_offset(board, side, k, sq, -2, 1) {
        let src = lemma_offset_source(board, side, k, sq, -2, 1);
        assert(knight_reach(src, sq));
    }
    if stands_offset(board, side, k, sq, -1, 2) {
        let src = lemma_offset_source(board, side, k, sq, -1, 2);
        assert(knight_reach(src, sq));
    }
}

/// The squares from which a king attacks `sq` are its eight neighbours.
pub proof fn lemma_king_offsets(board: Map<int, Piece>, side: Side, sq: int)
    ensures
        king_attacks(board, side, sq) == ({
            let k = PieceKind::King;
            ||| stands_offset(board, side, k, sq, 0, 1)
            ||| stands_offset(board, side, k, sq, 1, 1)
            ||| stands_offset(board, side, k, sq, 1, 0)
            ||| stands_offset(board, side, k, sq, 1, -1)
            ||| stands_offset(board, side, k, sq, 0, -1)
            ||| stands_offset(board, side, k, sq, -1, -1)
            ||| stands_offset(board, side, k, sq, -1, 0)
            ||| stands_offset(board, side, k, sq, -1, 1)
        }),
{
    let k = PieceKind::King;
    if king_attacks(board, side, sq) {
        let src = choose|src: int|
            valid_square(src) && #[trigger] stands(board, side, k, src) && king_reach(src, sq);
        lemma_source_offset(board, side, k, sq, src);
    }
    if stands_offset(board, side, k, sq, 0, 1) {
        let src = lemma_offset_source(board, side, k, sq, 0, 1);
        assert(king_reach(src, sq));
    }
    if stands_offset(board, side, k, sq, 1, 1) {
        let src = lemma_offset_source(board, side, k, sq, 1, 1);
        assert(king_reach(src, sq));
    }
    if stands_offset(board, side, k, sq, 1, 0) {
        let src = lemma_offset_source(board, side, k, sq, 1, 0);
        assert(king_reach(src, sq));
    }
    if stands_offset(board, side, k, sq, 1, -1) {
        let src = lemma_offset_source(board, side, k, sq, 1, -1);
        assert(king_reach(src, sq));
    }
    if stands_offset(board, side, k, sq, 0, -1) {
        let src = lemma_offset_source(board, side, k, sq, 0, -1);
        assert(king_reach(src, sq));
    }
    if stands_offset(board, side, k, sq, -1, -1) {
        let src = lemma_offset_source(board, side, k, sq, -1, -1);
        assert(king_reach(src, sq));
    }
    if stands_offset(board, side, k, sq, -1, 0) {
        let src = lemma_offset_source(board, side, k, sq, -1, 0);
        assert(king_reach(src, sq));
    }
    if stands_offset(board, side, k, sq, -1, 1) {
        let src = lemma_offset_source(board, side, k, sq, -1, 1);
        assert(king_reach(src, sq));
    }
}

impl Bitboards {
    /// Tells whether a pawn of `side` stands on `src` with its file next to
    /// that of `pos`. The file test rejects a source that an index offset
    /// reaches only by running over the edge of the board.
    fn pawn_source(&self, side: Side, src: usize, pos: usize) -> (b: bool)
        requires
            src < 64,
            pos < 64,
        ensures
            b == (stands(self@, side, PieceKind::Pawn, src as int) && dist(
                file_of(pos as int) - file_of(src as int),
            ) <= 1),
    {
        let source_file: usize = src % 8;
        let target_file: usize = pos % 8;
        let near: bool = if source_file > target_file {
            source_file - target_file <= 1
        } else {
            target_file - source_file <= 1
        };
        near && self.holds(side, PieceKind::Pawn, src)
    }

    /// Tells whether `pos` is attacked by a pawn of `side`. A white pawn on
    /// `s` attacks `s + 7` and `s + 9`, a black pawn `s - 7` and `s - 9`, so
    /// the two squares that many indices behind `pos` are looked at.
    pub fn is_attacked_by_pawns(&self, pos: usize, side: Side) -> (b: bool)
        requires
            pos < 64,
        ensures
            b == pawn_attacks(self@, side, pos as int),
    {
        let b = match side {
            Side::White => {
                (pos >= 7 && self.pawn_source(side, pos - 7, pos)) || (pos >= 9
                    && self.pawn_source(side, pos - 9, pos))
            },
            Side::Black => {
                (pos + 7 < 64 && self.pawn_source(side, pos + 7, pos)) || (pos + 9 < 64
                    && self.pawn_source(side, pos + 9, pos))
            },
        };
        proof {
            let p = pos as int;
            let back = side.forward();
            if b {
                let src = if stands(self@, side, PieceKind::Pawn, p - 7 * back) && valid_square(
                    p - 7 * back,
                ) && dist(file_of(p) - file_of(p - 7 * back)) <= 1 {
                    p - 7 * back
                } else {
                    p - 9 * back
                };
                assert(stands(self@, side, PieceKind::Pawn, src));
                assert(pawn_reach(side, src, p));
            }
            if pawn_attacks(self@, side, p) {
                let src = choose|src: int|
                    valid_square(src) && #[trigger] stands(self@, side, PieceKind::Pawn, src)
                        && pawn_reach(side, src, p);
                assert(src == p - 7 * back || src == p - 9 * back);
            }
        }
        b
    }

    /// Tells whether a piece of the given side and kind stands `df` files and
    /// `dr` ranks away from `pos`. A square off the board holds nothing.
    fn stands_at_offset(&self, side: Side, kind: PieceKind, pos: usize, df: i8, dr: i8) -> (b:
        bool)
        requires
            pos < 64,
            -8 <= df <= 8,
            -8 <= dr <= 8,
        ensures
            b == stands_offset(self@, side, kind, pos as int, df as int, dr as int),
    {
        match offset_square(pos, df, dr) {
            Some(src) => self.holds(side, kind, src),
            None => false,
        }
    }

    /// Tells whether `pos` is attacked by a knight of `side`. Each of the
    /// eight knight offsets is applied to the file and rank of `pos`; a
    /// source that falls off the board is skipped.
    pub fn is_attacked_by_knights(&self, pos: usize, side: Side) -> (b: bool)
        requires
            pos < 64,
        ensures
            b == knight_attacks(self@, side, pos as int),
    {
        let k = PieceKind::Knight;
        proof {
            lemma_knight_offsets(self@, side, pos as int);
        }
        self.stands_at_offset(side, k, pos, 1, 2) || self.stands_at_offset(side, k, pos, 2, 1)
            || self.stands_at_offset(side, k, pos, 2, -1) || self.stands_at_offset(
            side,
            k,
            pos,
            1,
            -2,
        ) || self.stands_at_offset(side, k, pos, -1, -2) || self.stands_at_offset(
            side,
            k,
            pos,
            -2,
            -1,
        ) || self.stands_at_offset(side, k, pos, -2, 1) || self.stands_at_offset(
            side,
            k,
            pos,
            -1,
            2,
        )
    }

    /// Tells whether `pos` is attacked by the king of `side`. Each of the
    /// eight unit offsets is applied to the file and rank of `pos`; a source
    /// that falls off the board is skipped.
    pub fn is_attacked_by_king(&self, pos: usize, side: Side) -> (b: bool)
        requires
            pos < 64,
        ensures
            b == king_attacks(self@, side, pos as int),
    {
        let k = PieceKind::King;
        proof {
            lemma_king_offsets(self@, side, pos as int);
        }
        self.stands_at_offset(side, k, pos, 0, 1) || self.stands_at_offset(side, k, pos, 1, 1)
            || self.stands_at_offset(side, k, pos, 1, 0) || self.stands_at_offset(
            side,
            k,
            pos,
            1,
            -1,
        ) || self.stands_at_offset(side, k, pos, 0, -1) || self.stands_at_offset(
            side,
            k,
            pos,
            -1,
            -1,
        ) || self.stands_at_offset(side, k, pos, -1, 0) || self.stands_at_offset(
            side,
            k,
            pos,
            -1,
            1,
        )
    }
}

} // verus!
