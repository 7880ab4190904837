//! Squares, files, ranks and the eight ray directions.
//!
//! A square is an index in `0..64`; its file is `index % 8` and its rank is
//! `index / 8`, so index 0 is a1 and index 63 is h8.

use vstd::prelude::*;

verus! {

/// `sq` names a square of the board.
pub open spec fn valid_square(sq: int) -> bool {
    0 <= sq < 64
}

/// File of a square, 0 for the a-file up to 7 for the h-file.
pub open spec fn file_of(sq: int) -> int {
    sq % 8
}

/// Rank of a square, 0 for the first rank up to 7 for the eighth.
pub open spec fn rank_of(sq: int) -> int {
    sq / 8
}

/// The coordinates lie on the board.
pub open spec fn on_board(file: int, rank: int) -> bool {
    0 <= file < 8 && 0 <= rank < 8
}

/// Index of the square with the given coordinates.
pub open spec fn square_at(file: int, rank: int) -> int {
    rank * 8 + file
}

/// Absolute value.
pub open spec fn dist(d: int) -> int {
    if d < 0 {
        -d
    } else {
        d
    }
}

/// The eight directions in which a ray leaves a square.
#[derive(Clone, Copy, Debug, PartialEq, Eq, Structural)]
pub enum Direction {
    North,
    South,
    East,
    West,
    NorthEast,
    NorthWest,
    SouthEast,
    SouthWest,
}

impl Direction {
    /// The direction runs along a diagonal rather than a file or a rank.
    pub open spec fn diagonal(self) -> bool {
        match self {
            Direction::North | Direction::South | Direction::East | Direction::West => false,
            _ => true,
        }
    }

    /// File change after `k` steps in this direction.
    pub open spec fn file_shift(self, k: int) -> int {
        match self {
            Direction::East | Direction::NorthEast | Direction::SouthEast => k,
            Direction::West | Direction::NorthWest | Direction::SouthWest => -k,
            Direction::North | Direction::South => 0,
        }
    }

    /// Rank change after `k` steps in this direction.
    pub open spec fn rank_shift(self, k: int) -> int {
        match self {
            Direction::North | Direction::NorthEast | Direction::NorthWest => k,
            Direction::South | Direction::SouthEast | Direction::SouthWest => -k,
            Direction::East | Direction::West => 0,
        }
    }

    /// The direction runs along a diagonal rather than a file or a rank.
    pub fn is_diagonal(self) -> (b: bool)
        ensures
            b == self.diagonal(),
    {
        match self {
            Direction::North | Direction::South | Direction::East | Direction::West => false,
            _ => true,
        }
    }

    /// File and rank change of a single step.
    pub fn step(self) -> (d: (i8, i8))
        ensures
            d.0 == self.file_shift(1),
            d.1 == self.rank_shift(1),
    {
        match self {
            Direction::North => (0, 1),
            Direction::South => (0, -1),
            Direction::East => (1, 0),
            Direction::West => (-1, 0),
            Direction::NorthEast => (1, 1),
            Direction::NorthWest => (-1, 1),
            Direction::SouthEast => (1, -1),
            Direction::SouthWest => (-1, -1),
        }
    }
}

/// The `k`-th step of the ray from `sq` in direction `dir` is on the board.
pub open spec fn ray_on_board(sq: int, dir: Direction, k: int) -> bool {
    on_board(file_of(sq) + dir.file_shift(k), rank_of(sq) + dir.rank_shift(k))
}

/// The square `k` steps from `sq` in direction `dir`.
pub open spec fn ray_square(sq: int, dir: Direction, k: int) -> int {
    square_at(file_of(sq) + dir.file_shift(k), rank_of(sq) + dir.rank_shift(k))
}

/// The square at coordinates on the board is valid and has those coordinates.
pub proof fn lemma_square_coords(file: int, rank: int)
    requires
        on_board(file, rank),
    ensures
        valid_square(square_at(file, rank)),
        file_of(square_at(file, rank)) == file,
        rank_of(square_at(file, rank)) == rank,
{
}

/// A valid square lies on the board and is the square at its own coordinates.
pub proof fn lemma_coords_square(sq: int)
    requires
        valid_square(sq),
    ensures
        on_board(file_of(sq), rank_of(sq)),
        square_at(file_of(sq), rank_of(sq)) == sq,
{
}

/// The square `(file + df, rank + dr)` seen from `pos`, or `None` when it
/// lies off the board.
pub fn offset_square(pos: usize, df: i8, dr: i8) -> (r: Option<usize>)
    requires
        pos < 64,
        -8 <= df <= 8,
        -8 <= dr <= 8,
    ensures
        r is Some <==> on_board(file_of(pos as int) + df, rank_of(pos as int) + dr),
        r matches Some(s) ==> s == square_at(file_of(pos as int) + df, rank_of(pos as int) + dr)
            && s < 64,
{
    let file: i8 = (pos % 8) as i8 + df;
    let rank: i8 = (pos / 8) as i8 + dr;
    if 0 <= file && file < 8 && 0 <= rank && rank < 8 {
        Some((rank * 8 + file) as usize)
    } else {
        None
    }
}

} // verus!
