//! Sides, piece kinds and pieces.

use vstd::prelude::*;

verus! {

/// The two sides of the game.
#[derive(Clone, Copy, Debug, PartialEq, Eq, Structural)]
pub enum Side {
    White,
    Black,
}

/// The six kinds of piece.
#[derive(Clone, Copy, Debug, PartialEq, Eq, Structural)]
pub enum PieceKind {
    Pawn,
    Knight,
    Bishop,
    Rook,
    Queen,
    King,
}

/// A piece: a kind together with the side that owns it.
#[derive(Clone, Copy, Debug, PartialEq, Eq, Structural)]
pub struct Piece {
    pub side: Side,
    pub kind: PieceKind,
}

/// Raised when a position breaks an invariant that a query relies on: two
/// pieces on one square, or a side without exactly one king.
#[derive(Clone, Copy, Debug, PartialEq, Eq, Structural)]
pub struct InvalidPosition;

impl Side {
    /// The other side.
    pub open spec fn other(self) -> Side {
        match self {
            Side::White => Side::Black,
            Side::Black => Side::White,
        }
    }

    /// The other side.
    pub fn opponent(self) -> (s: Side)
        ensures
            s == self.other(),
    {
        match self {
            Side::White => Side::Black,
            Side::Black => Side::White,
        }
    }

    /// Rank change of a pawn capture: one rank up the board for white, one
    /// rank down for black.
    pub open spec fn forward(self) -> int {
        match self {
            Side::White => 1,
            Side::Black => -1,
        }
    }
}

impl PieceKind {
    /// Position of the kind in the order pawn, knight, bishop, rook, queen, king.
    pub open spec fn ordinal(self) -> int {
        match self {
            PieceKind::Pawn => 0,
            PieceKind::Knight => 1,
            PieceKind::Bishop => 2,
            PieceKind::Rook => 3,
            PieceKind::Queen => 4,
            PieceKind::King => 5,
        }
    }
}

impl Piece {
    /// Position of the piece among the twelve, white kinds first.
    pub open spec fn ordinal(self) -> int {
        match self.side {
            Side::White => self.kind.ordinal(),
            Side::Black => 6 + self.kind.ordinal(),
        }
    }

    /// The piece at a given position among the twelve.
    pub open spec fn nth(n: int) -> Piece {
        let side = if n < 6 { Side::White } else { Side::Black };
        let k = if n < 6 { n } else { n - 6 };
        let kind = if k == 0 {
            PieceKind::Pawn
        } else if k == 1 {
            PieceKind::Knight
        } else if k == 2 {
            PieceKind::Bishop
        } else if k == 3 {
            PieceKind::Rook
        } else if k == 4 {
            PieceKind::Queen
        } else {
            PieceKind::King
        };
        Piece { side, kind }
    }

    /// The piece at a given position among the twelve.
    pub fn from_ordinal(n: usize) -> (p: Piece)
        requires
            n < 12,
        ensures
            p == Piece::nth(n as int),
            p.ordinal() == n,
    {
        let side = if n < 6 { Side::White } else { Side::Black };
        let k: usize = if n < 6 { n } else { n - 6 };
        let kind = if k == 0 {
            PieceKind::Pawn
        } else if k == 1 {
            PieceKind::Knight
        } else if k == 2 {
            PieceKind::Bishop
        } else if k == 3 {
            PieceKind::Rook
        } else if k == 4 {
            PieceKind::Queen
        } else {
            PieceKind::King
        };
        Piece { side, kind }
    }

    /// Every piece is the one at its own position among the twelve.
    pub proof fn lemma_nth_ordinal(self)
        ensures
            0 <= self.ordinal() < 12,
            Piece::nth(self.ordinal()) == self,
    {
    }

    /// One-character symbol: upper case for white, lower case for black.
    pub open spec fn symbol_of(self) -> char {
        match (self.side, self.kind) {
            (Side::White, PieceKind::Pawn) => 'P',
            (Side::White, PieceKind::Knight) => 'N',
            (Side::White, PieceKind::Bishop) => 'B',
            (Side::White, PieceKind::Rook) => 'R',
            (Side::White, PieceKind::Queen) => 'Q',
            (Side::White, PieceKind::King) => 'K',
            (Side::Black, PieceKind::Pawn) => 'p',
            (Side::Black, PieceKind::Knight) => 'n',
            (Side::Black, PieceKind::Bishop) => 'b',
            (Side::Black, PieceKind::Rook) => 'r',
            (Side::Black, PieceKind::Queen) => 'q',
            (Side::Black, PieceKind::King) => 'k',
        }
    }

    /// One-character symbol: upper case for white, lower case for black.
    pub fn symbol(self) -> (c: char)
        ensures
            c == self.symbol_of(),
    {
        match (self.side, self.kind) {
            (Side::White, PieceKind::Pawn) => 'P',
            (Side::White, PieceKind::Knight) => 'N',
            (Side::White, PieceKind::Bishop) => 'B',
            (Side::White, PieceKind::Rook) => 'R',
            (Side::White, PieceKind::Queen) => 'Q',
            (Side::White, PieceKind::King) => 'K',
            (Side::Black, PieceKind::Pawn) => 'p',
            (Side::Black, PieceKind::Knight) => 'n',
            (Side::Black, PieceKind::Bishop) => 'b',
            (Side::Black, PieceKind::Rook) => 'r',
            (Side::Black, PieceKind::Queen) => 'q',
            (Side::Black, PieceKind::King) => 'k',
        }
    }
}

} // verus!
