//! The standard initial arrangement.

use vstd::prelude::*;
use crate::geometry::{file_of, rank_of, valid_square};
use crate::masks::Masks;
use crate::piece::{Piece, PieceKind, Side};

verus! {

/// The kind that starts on the given file of a side's back rank: rook,
/// knight, bishop, queen, king, bishop, knight, rook from the a-file on.
pub open spec fn back_rank_kind(file: int) -> PieceKind {
    if file == 0 || file == 7 {
        PieceKind::Rook
    } else if file == 1 || file == 6 {
        PieceKind::Knight
    } else if file == 2 || file == 5 {
        PieceKind::Bishop
    } else if file == 3 {
        PieceKind::Queen
    } else {
        PieceKind::King
    }
}

/// The piece that starts on `sq`, if any: white on the first two ranks,
/// black on the last two, pawns in front of the back ranks.
pub open spec fn standard_piece(sq: int) -> Option<Piece> {
    if !valid_square(sq) {
        None
    } else if rank_of(sq) == 0 {
        Some(Piece { side: Side::White, kind: back_rank_kind(file_of(sq)) })
    } else if rank_of(sq) == 1 {
        Some(Piece { side: Side::White, kind: PieceKind::Pawn })
    } else if rank_of(sq) == 6 {
        Some(Piece { side: Side::Black, kind: PieceKind::Pawn })
    } else if rank_of(sq) == 7 {
        Some(Piece { side: Side::Black, kind: back_rank_kind(file_of(sq)) })
    } else {
        None
    }
}

/// The board of the standard initial arrangement.
pub open spec fn standard_board() -> Map<int, Piece> {
    Map::new(|sq: int| standard_piece(sq) is Some, |sq: int| standard_piece(sq)->0)
}

/// The twelve masks of the standard initial arrangement.
pub open spec fn standard_masks() -> Masks {
    Masks {
        white_pawns: 0x0000_0000_0000_ff00,
        white_knights: 0x0000_0000_0000_0042,
        white_bishops: 0x0000_0000_0000_0024,
        white_rooks: 0x0000_0000_0000_0081,
        white_queens: 0x0000_0000_0000_0008,
        white_king: 0x0000_0000_0000_0010,
        black_pawns: 0x00ff_0000_0000_0000,
        black_knights: 0x4200_0000_0000_0000,
        black_bishops: 0x2400_0000_0000_0000,
        black_rooks: 0x8100_0000_0000_0000,
        black_queens: 0x0800_0000_0000_0000,
        black_king: 0x1000_0000_0000_0000,
    }
}

impl Masks {
    /// The twelve masks of the standard initial arrangement.
    pub fn standard() -> (m: Masks)
        ensures
            m == standard_masks(),
    {
        Masks {
            white_pawns: 0x0000_0000_0000_ff00,
            white_knights: 0x0000_0000_0000_0042,
            white_bishops: 0x0000_0000_0000_0024,
            white_rooks: 0x0000_0000_0000_0081,
            white_queens: 0x0000_0000_0000_0008,
            white_king: 0x0000_0000_0000_0010,
            black_pawns: 0x00ff_0000_0000_0000,
            black_knights: 0x4200_0000_0000_0000,
            black_bishops: 0x2400_0000_0000_0000,
            black_rooks: 0x8100_0000_0000_0000,
            black_queens: 0x0800_0000_0000_0000,
            black_king: 0x1000_0000_0000_0000,
        }
    }
}

proof fn lemma_standard_bits(k: u64)
    by (bit_vector)
    requires
        k < 64,
    ensures
        (0x0000_0000_0000_ff00u64 >> k) & 1 == 1 <==> 8 <= k < 16,
        (0x0000_0000_0000_0042u64 >> k) & 1 == 1 <==> k == 1 || k == 6,
        (0x0000_0000_0000_0024u64 >> k) & 1 == 1 <==> k == 2 || k == 5,
        (0x0000_0000_0000_0081u64 >> k) & 1 == 1 <==> k == 0 || k == 7,
        (0x0000_0000_0000_0008u64 >> k) & 1 == 1 <==> k == 3,
        (0x0000_0000_0000_0010u64 >> k) & 1 == 1 <==> k == 4,
        (0x00ff_0000_0000_0000u64 >> k) & 1 == 1 <==> 48 <= k < 56,
        (0x4200_0000_0000_0000u64 >> k) & 1 == 1 <==> k == 57 || k == 62,
        (0x2400_0000_0000_0000u64 >> k) & 1 == 1 <==> k == 58 || k == 61,
        (0x8100_0000_0000_0000u64 >> k) & 1 == 1 <==> k == 56 || k == 63,
        (0x0800_0000_0000_0000u64 >> k) & 1 == 1 <==> k == 59,
        (0x1000_0000_0000_0000u64 >> k) & 1 == 1 <==> k == 60,
{
}

/// In the standard masks a piece's bit is set exactly on the squares where
/// that piece starts.
pub proof fn lemma_standard_holds(piece: Piece, sq: int)
    ensures
        standard_masks().holds(piece, sq) == (standard_piece(sq) == Some(piece)),
{
    if valid_square(sq) {
        lemma_standard_bits(sq as u64);
    }
}

/// The standard masks put no two pieces on one square, and the board they
/// describe is the standard board.
pub proof fn lemma_standard_masks()
    ensures
        standard_masks().single_occupancy(),
        standard_masks().placement() == standard_board(),
{
    let m = standard_masks();
    assert forall|sq: int, p: Piece, q: Piece|
        #![trigger m.holds(p, sq), m.holds(q, sq)]
        m.holds(p, sq) && m.holds(q, sq) implies p == q by {
        lemma_standard_holds(p, sq);
        lemma_standard_holds(q, sq);
    }
    assert forall|sq: int| #[trigger]
        m.placement().contains_key(sq) == standard_board().contains_key(sq) && (
        standard_board().contains_key(sq) ==> m.placement()[sq] == standard_board()[sq]) by {
        if standard_piece(sq) is Some {
            let p = standard_piece(sq)->0;
            lemma_standard_holds(p, sq);
            m.lemma_placement(p, sq);
        } else {
            assert forall|p: Piece| !m.holds(p, sq) by {
                lemma_standard_holds(p, sq);
            }
            assert(!m.holds(Piece { side: Side::White, kind: PieceKind::Pawn }, sq));
            assert(!m.holds(Piece { side: Side::White, kind: PieceKind::Knight }, sq));
            assert(!m.holds(Piece { side: Side::White, kind: PieceKind::Bishop }, sq));
            assert(!m.holds(Piece { side: Side::White, kind: PieceKind::Rook }, sq));
            assert(!m.holds(Piece { side: Side::White, kind: PieceKind::Queen }, sq));
            assert(!m.holds(Piece { side: Side::White, kind: PieceKind::King }, sq));
            assert(!m.holds(Piece { side: Side::Black, kind: PieceKind::Pawn }, sq));
            assert(!m.holds(Piece { side: Side::Black, kind: PieceKind::Knight }, sq));
            assert(!m.holds(Piece { side: Side::Black, kind: PieceKind::Bishop }, sq));
            assert(!m.holds(Piece { side: Side::Black, kind: PieceKind::Rook }, sq));
            assert(!m.holds(Piece { side: Side::Black, kind: PieceKind::Queen }, sq));
            assert(!m.holds(Piece { side: Side::Black, kind: PieceKind::King }, sq));
        }
    }
    assert(m.placement() =~= standard_board());
}

} // verus!
