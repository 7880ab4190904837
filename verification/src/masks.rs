//! The twelve occupancy masks of a position and what they say about the board.

use vstd::prelude::*;
use crate::bits::{bit_set, lemma_bit_or};
use crate::piece::{Piece, PieceKind, Side};

verus! {

/// Twelve raw occupancy masks, one per side and kind. Bit `i` of a mask is
/// set when a piece of that side and kind stands on square `i`. Nothing is
/// required of the masks: two of them may claim the same square.
#[derive(Clone, Copy, Debug, PartialEq, Eq, Structural)]
pub struct Masks {
    pub white_pawns: u64,
    pub white_knights: u64,
    pub white_bishops: u64,
    pub white_rooks: u64,
    pub white_queens: u64,
    pub white_king: u64,
    pub black_pawns: u64,
    pub black_knights: u64,
    pub black_bishops: u64,
    pub black_rooks: u64,
    pub black_queens: u64,
    pub black_king: u64,
}

impl Masks {
    /// The mask of the given piece.
    pub open spec fn of(self, piece: Piece) -> u64 {
        match (piece.side, piece.kind) {
            (Side::White, PieceKind::Pawn) => self.white_pawns,
            (Side::White, PieceKind::Knight) => self.white_knights,
            (Side::White, PieceKind::Bishop) => self.white_bishops,
            (Side::White, PieceKind::Rook) => self.white_rooks,
            (Side::White, PieceKind::Queen) => self.white_queens,
            (Side::White, PieceKind::King) => self.white_king,
            (Side::Black, PieceKind::Pawn) => self.black_pawns,
            (Side::Black, PieceKind::Knight) => self.black_knights,
            (Side::Black, PieceKind::Bishop) => self.black_bishops,
            (Side::Black, PieceKind::Rook) => self.black_rooks,
            (Side::Black, PieceKind::Queen) => self.black_queens,
            (Side::Black, PieceKind::King) => self.black_king,
        }
    }

    /// A piece of the given side and kind stands on `sq`.
    pub open spec fn holds(self, piece: Piece, sq: int) -> bool {
        bit_set(self.of(piece), sq)
    }

    /// Some piece stands on `sq`: one of the twelve masks has the bit set.
    pub open spec fn occupied(self, sq: int) -> bool {
        ||| bit_set(self.white_pawns, sq)
        ||| bit_set(self.white_knights, sq)
        ||| bit_set(self.white_bishops, sq)
        ||| bit_set(self.white_rooks, sq)
        ||| bit_set(self.white_queens, sq)
        ||| bit_set(self.white_king, sq)
        ||| bit_set(self.black_pawns, sq)
        ||| bit_set(self.black_knights, sq)
        ||| bit_set(self.black_bishops, sq)
        ||| bit_set(self.black_rooks, sq)
        ||| bit_set(self.black_queens, sq)
        ||| bit_set(self.black_king, sq)
    }

    /// Some piece of the given side stands on `sq`.
    pub open spec fn occupied_by(self, side: Side, sq: int) -> bool {
        ||| self.holds(Piece { side, kind: PieceKind::Pawn }, sq)
        ||| self.holds(Piece { side, kind: PieceKind::Knight }, sq)
        ||| self.holds(Piece { side, kind: PieceKind::Bishop }, sq)
        ||| self.holds(Piece { side, kind: PieceKind::Rook }, sq)
        ||| self.holds(Piece { side, kind: PieceKind::Queen }, sq)
        ||| self.holds(Piece { side, kind: PieceKind::King }, sq)
    }

    /// No square is claimed by two different pieces.
    pub open spec fn single_occupancy(self) -> bool {
        forall|sq: int, p: Piece, q: Piece|
            #![trigger self.holds(p, sq), self.holds(q, sq)]
            self.holds(p, sq) && self.holds(q, sq) ==> p == q
    }

    /// The first piece, in the order of the twelve masks, that claims `sq`.
    pub open spec fn first_piece(self, sq: int) -> Piece {
        if bit_set(self.white_pawns, sq) {
            Piece { side: Side::White, kind: PieceKind::Pawn }
        } else if bit_set(self.white_knights, sq) {
            Piece { side: Side::White, kind: PieceKind::Knight }
        } else if bit_set(self.white_bishops, sq) {
            Piece { side: Side::White, kind: PieceKind::Bishop }
        } else if bit_set(self.white_rooks, sq) {
            Piece { side: Side::White, kind: PieceKind::Rook }
        } else if bit_set(self.white_queens, sq) {
            Piece { side: Side::White, kind: PieceKind::Queen }
        } else if bit_set(self.white_king, sq) {
            Piece { side: Side::White, kind: PieceKind::King }
        } else if bit_set(self.black_pawns, sq) {
            Piece { side: Side::Black, kind: PieceKind::Pawn }
        } else if bit_set(self.black_knights, sq) {
            Piece { side: Side::Black, kind: PieceKind::Knight }
        } else if bit_set(self.black_bishops, sq) {
            Piece { side: Side::Black, kind: PieceKind::Bishop }
        } else if bit_set(self.black_rooks, sq) {
            Piece { side: Side::Black, kind: PieceKind::Rook }
        } else if bit_set(self.black_queens, sq) {
            Piece { side: Side::Black, kind: PieceKind::Queen }
        } else {
            Piece { side: Side::Black, kind: PieceKind::King }
        }
    }

    /// The board that the masks describe: each occupied square with the piece
    /// on it.
    pub open spec fn placement(self) -> Map<int, Piece> {
        Map::new(|sq: int| self.occupied(sq), |sq: int| self.first_piece(sq))
    }

    /// Twelve empty masks.
    pub fn empty() -> (m: Masks)
        ensures
            forall|p: Piece| #[trigger] m.of(p) == 0,
    {
        Masks {
            white_pawns: 0,
            white_knights: 0,
            white_bishops: 0,
            white_rooks: 0,
            white_queens: 0,
            white_king: 0,
            black_pawns: 0,
            black_knights: 0,
            black_bishops: 0,
            black_rooks: 0,
            black_queens: 0,
            black_king: 0,
        }
    }

    /// The mask of the given side and kind.
    pub fn get(&self, side: Side, kind: PieceKind) -> (mask: u64)
        ensures
            mask == self.of(Piece { side, kind }),
    {
        match (side, kind) {
            (Side::White, PieceKind::Pawn) => self.white_pawns,
            (Side::White, PieceKind::Knight) => self.white_knights,
            (Side::White, PieceKind::Bishop) => self.white_bishops,
            (Side::White, PieceKind::Rook) => self.white_rooks,
            (Side::White, PieceKind::Queen) => self.white_queens,
            (Side::White, PieceKind::King) => self.white_king,
            (Side::Black, PieceKind::Pawn) => self.black_pawns,
            (Side::Black, PieceKind::Knight) => self.black_knights,
            (Side::Black, PieceKind::Bishop) => self.black_bishops,
            (Side::Black, PieceKind::Rook) => self.black_rooks,
            (Side::Black, PieceKind::Queen) => self.black_queens,
            (Side::Black, PieceKind::King) => self.black_king,
        }
    }

    /// The same masks with the one of the given side and kind replaced.
    pub fn with(self, side: Side, kind: PieceKind, mask: u64) -> (m: Masks)
        ensures
            m.of(Piece { side, kind }) == mask,
            forall|p: Piece| p != (Piece { side, kind }) ==> #[trigger] m.of(p) == self.of(p),
    {
        let mut m = self;
        match (side, kind) {
            (Side::White, PieceKind::Pawn) => { m.white_pawns = mask; },
            (Side::White, PieceKind::Knight) => { m.white_knights = mask; },
            (Side::White, PieceKind::Bishop) => { m.white_bishops = mask; },
            (Side::White, PieceKind::Rook) => { m.white_rooks = mask; },
            (Side::White, PieceKind::Queen) => { m.white_queens = mask; },
            (Side::White, PieceKind::King) => { m.white_king = mask; },
            (Side::Black, PieceKind::Pawn) => { m.black_pawns = mask; },
            (Side::Black, PieceKind::Knight) => { m.black_knights = mask; },
            (Side::Black, PieceKind::Bishop) => { m.black_bishops = mask; },
            (Side::Black, PieceKind::Rook) => { m.black_rooks = mask; },
            (Side::Black, PieceKind::Queen) => { m.black_queens = mask; },
            (Side::Black, PieceKind::King) => { m.black_king = mask; },
        }
        m
    }

    /// Union of the six masks of one side.
    pub open spec fn side_mask(self, side: Side) -> u64 {
        match side {
            Side::White => self.white_pawns | self.white_knights | self.white_bishops
                | self.white_rooks | self.white_queens | self.white_king,
            Side::Black => self.black_pawns | self.black_knights | self.black_bishops
                | self.black_rooks | self.black_queens | self.black_king,
        }
    }

    /// Union of all twelve masks.
    pub open spec fn occupancy_mask(self) -> u64 {
        self.side_mask(Side::White) | self.side_mask(Side::Black)
    }

    /// A bit of a side's union is set exactly where a piece of that side stands.
    pub proof fn lemma_side_mask(self, side: Side, sq: int)
        ensures
            bit_set(self.side_mask(side), sq) == self.occupied_by(side, sq),
    {
        let p = self.of(Piece { side, kind: PieceKind::Pawn });
        let n = self.of(Piece { side, kind: PieceKind::Knight });
        let b = self.of(Piece { side, kind: PieceKind::Bishop });
        let r = self.of(Piece { side, kind: PieceKind::Rook });
        let q = self.of(Piece { side, kind: PieceKind::Queen });
        let k = self.of(Piece { side, kind: PieceKind::King });
        lemma_bit_or(p, n, sq);
        lemma_bit_or(p | n, b, sq);
        lemma_bit_or(p | n | b, r, sq);
        lemma_bit_or(p | n | b | r, q, sq);
        lemma_bit_or(p | n | b | r | q, k, sq);
    }

    /// A bit of the union of all masks is set exactly on the occupied squares.
    pub proof fn lemma_occupancy_mask(self, sq: int)
        ensures
            bit_set(self.occupancy_mask(), sq) == self.occupied(sq),
            self.occupied(sq) == (self.occupied_by(Side::White, sq) || self.occupied_by(
                Side::Black,
                sq,
            )),
    {
        self.lemma_side_mask(Side::White, sq);
        self.lemma_side_mask(Side::Black, sq);
        lemma_bit_or(self.side_mask(Side::White), self.side_mask(Side::Black), sq);
    }

    /// Masks that put two different pieces on one square break the rule of
    /// single occupancy.
    pub proof fn lemma_shared_square(self, p: Piece, q: Piece, sq: int)
        requires
            p != q,
            self.holds(p, sq),
            self.holds(q, sq),
        ensures
            !self.single_occupancy(),
    {
    }

    /// A square is occupied exactly when some piece's mask claims it.
    pub proof fn lemma_occupied_by_some_piece(self, sq: int)
        ensures
            self.occupied(sq) <==> exists|p: Piece| self.holds(p, sq),
    {
        if self.occupied(sq) {
            assert(self.holds(self.first_piece(sq), sq));
        }
    }

    /// Where no square is claimed twice, the board holds a piece on a square
    /// exactly when that piece's mask has the square's bit set.
    pub proof fn lemma_placement(self, piece: Piece, sq: int)
        requires
            self.single_occupancy(),
        ensures
            self.placement().contains_key(sq) == self.occupied(sq),
            (self.placement().contains_key(sq) && self.placement()[sq] == piece) == self.holds(
                piece,
                sq,
            ),
    {
        if self.occupied(sq) {
            let first = self.first_piece(sq);
            assert(self.holds(first, sq));
            if self.holds(piece, sq) {
                assert(piece == first);
            }
        } else {
            assert(!self.holds(piece, sq));
        }
    }
}

} // verus!
