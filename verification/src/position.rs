//! A chess position held as twelve occupancy masks.

use vstd::prelude::*;
use crate::attacks::stands;
use crate::bits::{
    bit_set, lemma_bit_and, lemma_bit_disjoint, lemma_bit_or, lemma_bit_zero,
    lemma_nonzero_has_bit, test_bit,
};
use crate::geometry::on_board;
use crate::masks::Masks;
use crate::piece::{InvalidPosition, Piece, PieceKind, Side};
use crate::setup::{lemma_standard_masks, standard_board, standard_masks};

verus! {

/// A position: twelve occupancy masks of which no two claim the same square.
#[derive(Clone, Copy, Debug)]
pub struct Bitboards {
    masks: Masks,
}

/// Some mask before the `n`-th of the twelve claims `sq`.
spec fn claimed_before(masks: Masks, n: int, sq: int) -> bool {
    exists|j: int| 0 <= j < n && #[trigger] masks.holds(Piece::nth(j), sq)
}

impl View for Bitboards {
    type V = Map<int, Piece>;

    /// The board: each occupied square with the piece on it.
    open spec fn view(&self) -> Map<int, Piece> {
        self.masks().placement()
    }
}

impl Bitboards {
    /// The twelve masks of the position.
    pub closed spec fn masks(self) -> Masks {
        self.masks
    }

    /// No square holds two pieces.
    #[verifier::type_invariant]
    pub open spec fn wf(self) -> bool {
        self.masks().single_occupancy()
    }

    /// Builds a position from twelve masks. Fails when two masks claim the
    /// same square.
    pub fn from_masks(masks: Masks) -> (r: Result<Bitboards, InvalidPosition>)
        ensures
            r is Ok <==> masks.single_occupancy(),
            r matches Ok(b) ==> b.masks() == masks && b.wf(),
    {
        let mut seen: u64 = 0;
        let mut n: usize = 0;
        proof {
            assert forall|sq: int| !bit_set(seen, sq) by {
                lemma_bit_zero(sq);
            }
        }
        while n < 12
            invariant
                n <= 12,
                forall|sq: int| bit_set(seen, sq) <==> claimed_before(masks, n as int, sq),
                forall|sq: int, i: int, j: int|
                    #![trigger masks.holds(Piece::nth(i), sq), masks.holds(Piece::nth(j), sq)]
                    0 <= i < j < n ==> !(masks.holds(Piece::nth(i), sq) && masks.holds(
                        Piece::nth(j),
                        sq,
                    )),
            decreases 12 - n,
        {
            let piece = Piece::from_ordinal(n);
            let mask: u64 = masks.get(piece.side, piece.kind);
            if seen & mask != 0 {
                proof {
                    let w = lemma_nonzero_has_bit(seen & mask);
                    lemma_bit_and(seen, mask, w);
                    assert(claimed_before(masks, n as int, w));
                    let j = choose|j: int| 0 <= j < n && #[trigger] masks.holds(Piece::nth(j), w);
                    assert(masks.holds(Piece::nth(j), w));
                    assert(masks.holds(Piece::nth(n as int), w));
                    assert(Piece::nth(j) != Piece::nth(n as int));
                }
                return Err(InvalidPosition);
            }
            proof {
                assert forall|sq: int| bit_set(seen | mask, sq) <==> claimed_before(
                    masks,
                    n + 1,
                    sq,
                ) by {
                    lemma_bit_or(seen, mask, sq);
                    if bit_set(seen, sq) {
                        let j = choose|j: int|
                            0 <= j < n && #[trigger] masks.holds(Piece::nth(j), sq);
                        assert(masks.holds(Piece::nth(j), sq));
                    }
                    if bit_set(mask, sq) {
                        assert(masks.holds(Piece::nth(n as int), sq));
                    }
                    if claimed_before(masks, n + 1, sq) {
                        let j = choose|j: int|
                            0 <= j < n + 1 && #[trigger] masks.holds(Piece::nth(j), sq);
                        if j < n {
                            assert(claimed_before(masks, n as int, sq));
                        }
                    }
                }
                assert forall|sq: int, i: int, j: int|
                    #![trigger masks.holds(Piece::nth(i), sq), masks.holds(Piece::nth(j), sq)]
                    0 <= i < j < n + 1 implies !(masks.holds(Piece::nth(i), sq) && masks.holds(
                    Piece::nth(j),
                    sq,
                )) by {
                    if j == n && masks.holds(Piece::nth(i), sq) {
                        assert(claimed_before(masks, n as int, sq));
                        lemma_bit_disjoint(seen, mask, sq);
                    }
                }
            }
            seen = seen | mask;
            n += 1;
        }
        proof {
            assert forall|sq: int, p: Piece, q: Piece|
                #![trigger masks.holds(p, sq), masks.holds(q, sq)]
                masks.holds(p, sq) && masks.holds(q, sq) implies p == q by {
                p.lemma_nth_ordinal();
                q.lemma_nth_ordinal();
                let i = p.ordinal();
                let j = q.ordinal();
                assert(masks.holds(Piece::nth(i), sq) && masks.holds(Piece::nth(j), sq));
                assert(i == j);
            }
        }
        Ok(Bitboards { masks })
    }

    /// The standard initial arrangement.
    pub fn new() -> (b: Bitboards)
        ensures
            b.masks() == standard_masks(),
            b@ == standard_board(),
            b.wf(),
    {
        proof {
            lemma_standard_masks();
        }
        Bitboards { masks: Masks::standard() }
    }

    /// The twelve masks of the position.
    pub fn raw(&self) -> (m: Masks)
        ensures
            m == self.masks(),
            m.single_occupancy(),
    {
        proof {
            use_type_invariant(self);
        }
        self.masks
    }

    /// The mask of the given side and kind.
    pub fn board(&self, side: Side, kind: PieceKind) -> (mask: u64)
        ensures
            mask == self.masks().of(Piece { side, kind }),
            forall|sq: int| bit_set(mask, sq) == stands(self@, side, kind, sq),
    {
        proof {
            use_type_invariant(self);
            assert forall|sq: int|
                bit_set(self.masks.of(Piece { side, kind }), sq) == stands(
                    self@,
                    side,
                    kind,
                    sq,
                ) by {
                self.masks.lemma_placement(Piece { side, kind }, sq);
            }
        }
        self.masks.get(side, kind)
    }

    /// Tells whether a piece of the given side and kind stands on `pos`.
    pub fn holds(&self, side: Side, kind: PieceKind, pos: usize) -> (b: bool)
        requires
            pos < 64,
        ensures
            b == stands(self@, side, kind, pos as int),
            b == bit_set(self.masks().of(Piece { side, kind }), pos as int),
    {
        test_bit(self.board(side, kind), pos)
    }

    /// Union of the six masks of `side`: the squares its pieces stand on.
    pub fn side_occupancy(&self, side: Side) -> (mask: u64)
        ensures
            mask == self.masks().side_mask(side),
            forall|sq: int|
                bit_set(mask, sq) == (self@.contains_key(sq) && self@[sq].side == side),
    {
        let p: u64 = self.masks.get(side, PieceKind::Pawn);
        let n: u64 = self.masks.get(side, PieceKind::Knight);
        let b: u64 = self.masks.get(side, PieceKind::Bishop);
        let r: u64 = self.masks.get(side, PieceKind::Rook);
        let q: u64 = self.masks.get(side, PieceKind::Queen);
        let k: u64 = self.masks.get(side, PieceKind::King);
        let mask: u64 = p | n | b | r | q | k;
        proof {
            use_type_invariant(self);
            assert forall|sq: int|
                bit_set(mask, sq) == (self@.contains_key(sq) && self@[sq].side == side) by {
                self.lemma_side_occupancy(side, sq);
            }
        }
        mask
    }

    /// Union of the six white masks.
    pub fn all_white(&self) -> (mask: u64)
        ensures
            mask == self.masks().side_mask(Side::White),
            forall|sq: int|
                bit_set(mask, sq) == (self@.contains_key(sq) && self@[sq].side == Side::White),
    {
        self.side_occupancy(Side::White)
    }

    /// Union of the six black masks.
    pub fn all_black(&self) -> (mask: u64)
        ensures
            mask == self.masks().side_mask(Side::Black),
            forall|sq: int|
                bit_set(mask, sq) == (self@.contains_key(sq) && self@[sq].side == Side::Black),
    {
        self.side_occupancy(Side::Black)
    }

    /// Union of all twelve masks.
    pub fn all_occupied(&self) -> (mask: u64)
        ensures
            mask == self.masks().occupancy_mask(),
            forall|sq: int| bit_set(mask, sq) == self@.contains_key(sq),
    {
        let mask: u64 = self.all_white() | self.all_black();
        proof {
            assert forall|sq: int| bit_set(mask, sq) == self@.contains_key(sq) by {
                self.masks.lemma_occupancy_mask(sq);
            }
        }
        mask
    }

    /// Tells whether some piece stands on `pos`: whether the union of all
    /// masks has the bit of `pos` set, which is the case exactly when one of
    /// the twelve masks has it set.
    pub fn is_occupied(&self, pos: usize) -> (b: bool)
        requires
            pos < 64,
        ensures
            b == self@.contains_key(pos as int),
            b == self.masks().occupied(pos as int),
            b == bit_set(self.masks().occupancy_mask(), pos as int),
    {
        test_bit(self.all_occupied(), pos)
    }

    /// The piece on `pos`, if any.
    pub fn piece_at(&self, pos: usize) -> (r: Option<Piece>)
        requires
            pos < 64,
        ensures
            r is Some <==> self@.contains_key(pos as int),
            r matches Some(p) ==> self@[pos as int] == p,
    {
        let mut n: usize = 0;
        proof {
            use_type_invariant(self);
        }
        while n < 12
            invariant
                n <= 12,
                pos < 64,
                self.wf(),
                forall|j: int| 0 <= j < n ==> !self.masks().holds(Piece::nth(j), pos as int),
            decreases 12 - n,
        {
            let piece = Piece::from_ordinal(n);
            if self.holds(piece.side, piece.kind, pos) {
                return Some(piece);
            }
            n += 1;
        }
        proof {
            if self@.contains_key(pos as int) {
                let p = self@[pos as int];
                p.lemma_nth_ordinal();
                self.masks().lemma_placement(p, pos as int);
                assert(self.masks().holds(Piece::nth(p.ordinal()), pos as int));
            }
        }
        None
    }

    /// The symbol of the piece on `pos`, or `'.'` on an empty square.
    pub fn symbol_at(&self, pos: usize) -> (c: char)
        requires
            pos < 64,
        ensures
            c == (if self@.contains_key(pos as int) {
                self@[pos as int].symbol_of()
            } else {
                '.'
            }),
    {
        match self.piece_at(pos) {
            Some(piece) => piece.symbol(),
            None => '.',
        }
    }

    /// A bit of a side's union is set exactly on the squares that hold a
    /// piece of that side.
    pub proof fn lemma_side_occupancy(self, side: Side, sq: int)
        requires
            self.wf(),
        ensures
            bit_set(self.masks().side_mask(side), sq) == (self@.contains_key(sq) && self@[sq].side
                == side),
    {
        let m = self.masks();
        m.lemma_side_mask(side, sq);
        m.lemma_placement(Piece { side, kind: PieceKind::Pawn }, sq);
        m.lemma_placement(Piece { side, kind: PieceKind::Knight }, sq);
        m.lemma_placement(Piece { side, kind: PieceKind::Bishop }, sq);
        m.lemma_placement(Piece { side, kind: PieceKind::Rook }, sq);
        m.lemma_placement(Piece { side, kind: PieceKind::Queen }, sq);
        m.lemma_placement(Piece { side, kind: PieceKind::King }, sq);
    }

    /// Tells whether file `x` and rank `y` are coordinates on the board.
    pub fn is_coord_on_board(x: usize, y: usize) -> (b: bool)
        ensures
            b == on_board(x as int, y as int),
    {
        x < 8 && y < 8
    }
}

} // verus!
