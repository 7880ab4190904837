//! Bitboard chess positions and attack detection.
//!
//! A position is held as twelve 64-bit occupancy masks, one per side and
//! kind of piece. The queries tell whether a square is occupied, whether it
//! is attacked by a given kind of piece or by a side, and whether a side's
//! king is in check. What each query returns is stated over the board that
//! the masks describe: a map from the occupied squares to the piece on each.

pub mod attacks;
pub mod bits;
pub mod geometry;
pub mod laws;
pub mod leapers;
pub mod masks;
pub mod piece;
pub mod position;
pub mod queries;
pub mod setup;
pub mod sliders;

pub use crate::geometry::Direction;
pub use crate::masks::Masks;
pub use crate::piece::{InvalidPosition, Piece, PieceKind, Side};
pub use crate::position::Bitboards;
