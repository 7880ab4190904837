//! Attacks by bishops, rooks and queens: pieces that slide along a ray until
//! something stands in the way.

use vstd::prelude::*;
use crate::attacks::{
    diagonal_attacks, first_blocker, orthogonal_attacks, ray_attacks, slider_stands,
};
use crate::geometry::{
    file_of, lemma_square_coords, offset_square, rank_of, ray_on_board, ray_square, Direction,
};
use crate::piece::{PieceKind, Side};
use crate::position::Bitboards;

verus! {

/// A ray that is on the board after `k` steps was on the board after every
/// earlier step.
pub proof fn lemma_ray_convex(sq: int, dir: Direction, j: int, k: int)
    requires
        0 <= sq < 64,
        0 <= j <= k,
        ray_on_board(sq, dir, k),
    ensures
        ray_on_board(sq, dir, j),
{
}

/// A ray leaves the board within eight steps.
pub proof fn lemma_ray_bounded(sq: int, dir: Direction, k: int)
    requires
        0 <= sq < 64,
        0 <= k,
        ray_on_board(sq, dir, k),
    ensures
        k < 8,
{
}

impl Bitboards {
    /// Tells whether a piece of `side` that slides along `dir` stands on
    /// `at`: a queen, or a bishop for a diagonal direction, or a rook for an
    /// orthogonal one.
    fn slider_at(&self, side: Side, dir: Direction, at: usize) -> (b: bool)
        requires
            at < 64,
        ensures
            b == slider_stands(self@, side, dir, at as int),
    {
        if self.holds(side, PieceKind::Queen, at) {
            true
        } else if dir.is_diagonal() {
            self.holds(side, PieceKind::Bishop, at)
        } else {
            self.holds(side, PieceKind::Rook, at)
        }
    }

    /// Walks from `pos` in direction `dir`, one square at a time, up to the
    /// edge of the board or the first occupied square, and tells whether
    /// that square holds a piece of `side` that slides along `dir`.
    pub fn is_attacked_along(&self, pos: usize, side: Side, dir: Direction) -> (b: bool)
        requires
            pos < 64,
        ensures
            b == ray_attacks(self@, side, pos as int, dir),
    {
        let (df, dr) = dir.step();
        let mut cur: usize = pos;
        let ghost mut k: int = 0;
        loop
            invariant
                pos < 64,
                cur < 64,
                0 <= k,
                df == dir.file_shift(1),
                dr == dir.rank_shift(1),
                ray_on_board(pos as int, dir, k),
                file_of(cur as int) == file_of(pos as int) + dir.file_shift(k),
                rank_of(cur as int) == rank_of(pos as int) + dir.rank_shift(k),
                forall|j: int|
                    1 <= j <= k ==> !self@.contains_key(#[trigger] ray_square(pos as int, dir, j)),
            decreases 8 - k,
        {
            proof {
                lemma_ray_bounded(pos as int, dir, k);
            }
            match offset_square(cur, df, dr) {
                None => {
                    proof {
                        assert(!ray_on_board(pos as int, dir, k + 1));
                        assert forall|n: int| !#[trigger] first_blocker(self@, pos as int, dir, n) by {
                            if n > k {
                                if ray_on_board(pos as int, dir, n) {
                                    lemma_ray_convex(pos as int, dir, k + 1, n);
                                }
                            }
                        }
                    }
                    return false;
                },
                Some(next) => {
                    proof {
                        assert(ray_on_board(pos as int, dir, k + 1));
                        assert(next == ray_square(pos as int, dir, k + 1));
                        lemma_square_coords(
                            file_of(pos as int) + dir.file_shift(k + 1),
                            rank_of(pos as int) + dir.rank_shift(k + 1),
                        );
                        lemma_ray_bounded(pos as int, dir, k + 1);
                    }
                    if self.is_occupied(next) {
                        let hit = self.slider_at(side, dir, next);
                        proof {
                            assert(first_blocker(self@, pos as int, dir, k + 1));
                            assert forall|n: int| #[trigger]
                                first_blocker(self@, pos as int, dir, n) implies n == k + 1 by {
                                if n > k + 1 {
                                    assert(!self@.contains_key(
                                        ray_square(pos as int, dir, k + 1),
                                    ));
                                }
                            }
                        }
                        return hit;
                    }
                    cur = next;
                    proof {
                        k = k + 1;
                    }
                },
            }
        }
    }

    /// Tells whether `pos` is attacked along a file or a rank by a rook or
    /// queen of `side`.
    pub fn is_attacked_orthogonally(&self, pos: usize, side: Side) -> (b: bool)
        requires
            pos < 64,
        ensures
            b == orthogonal_attacks(self@, side, pos as int),
    {
        self.is_attacked_along(pos, side, Direction::North) || self.is_attacked_along(
            pos,
            side,
            Direction::South,
        ) || self.is_attacked_along(pos, side, Direction::East) || self.is_attacked_along(
            pos,
            side,
            Direction::West,
        )
    }

    /// Tells whether `pos` is attacked along a diagonal by a bishop or queen
    /// of `side`.
    pub fn is_attacked_diagonally(&self, pos: usize, side: Side) -> (b: bool)
        requires
            pos < 64,
        ensures
            b == diagonal_attacks(self@, side, pos as int),
    {
        self.is_attacked_along(pos, side, Direction::NorthEast) || self.is_attacked_along(
            pos,
            side,
            Direction::NorthWest,
        ) || self.is_attacked_along(pos, side, Direction::SouthEast) || self.is_attacked_along(
            pos,
            side,
            Direction::SouthWest,
        )
    }
}

} // verus!
