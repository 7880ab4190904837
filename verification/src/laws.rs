//! Properties of the attack relation that hold on every board.

use vstd::prelude::*;
use crate::attacks::{
    attacked_by, first_blocker, king_reach, knight_attacks, knight_reach, orthogonal_attacks,
    pawn_reach, ray_attacks, slider_stands, stands,
};
use crate::geometry::{
    dist, file_of, lemma_coords_square, lemma_square_coords, rank_of, ray_on_board, ray_square,
    valid_square, Direction,
};
use crate::piece::{Piece, PieceKind, Side};

verus! {

/// A pawn's two capture squares lie 7 and 9 indices ahead of it, and an
/// index that far ahead is a capture square exactly when its file is next to
/// the pawn's: the file test is what keeps a pawn on an edge file from
/// attacking across the edge.
pub proof fn lemma_pawn_reach_offsets(side: Side, src: int, dst: int)
    requires
        valid_square(src),
        valid_square(dst),
    ensures
        pawn_reach(side, src, dst) <==> (dst - src == 7 * side.forward() || dst - src == 9
            * side.forward()) && dist(file_of(dst) - file_of(src)) <= 1,
{
}

/// A knight's attack squares lie 6, 10, 15 or 17 indices from it, and an
/// index that far away is an attack square exactly when it is at most two
/// files away: a knight never attacks across the edge of the board.
pub proof fn lemma_knight_reach_offsets(src: int, dst: int)
    requires
        valid_square(src),
        valid_square(dst),
    ensures
        knight_reach(src, dst) <==> (dist(dst - src) == 6 || dist(dst - src) == 10 || dist(
            dst - src,
        ) == 15 || dist(dst - src) == 17) && dist(file_of(dst) - file_of(src)) <= 2,
{
}

/// A king's attack squares lie 1, 7, 8 or 9 indices from it, and an index
/// that far away is an attack square exactly when it is at most one file
/// away.
pub proof fn lemma_king_reach_offsets(src: int, dst: int)
    requires
        valid_square(src),
        valid_square(dst),
    ensures
        king_reach(src, dst) <==> (dist(dst - src) == 1 || dist(dst - src) == 7 || dist(dst - src)
            == 8 || dist(dst - src) == 9) && dist(file_of(dst) - file_of(src)) <= 1,
{
}

/// A square attacked by a knight has a knight of that side within two files
/// and two ranks of it.
pub proof fn lemma_knight_attack_stays_near(board: Map<int, Piece>, side: Side, sq: int)
    requires
        knight_attacks(board, side, sq),
    ensures
        exists|src: int|
            valid_square(src) && #[trigger] stands(board, side, PieceKind::Knight, src) && dist(
                file_of(sq) - file_of(src),
            ) <= 2 && dist(rank_of(sq) - rank_of(src)) <= 2,
{
    let src = choose|src: int|
        valid_square(src) && #[trigger] stands(board, side, PieceKind::Knight, src) && knight_reach(
            src,
            sq,
        );
    assert(stands(board, side, PieceKind::Knight, src));
}

/// A ray has at most one first occupied square.
pub proof fn lemma_first_blocker_unique(
    board: Map<int, Piece>,
    sq: int,
    dir: Direction,
    j: int,
    k: int,
)
    requires
        first_blocker(board, sq, dir, j),
        first_blocker(board, sq, dir, k),
    ensures
        j == k,
{
    if j < k {
        assert(!board.contains_key(ray_square(sq, dir, j)));
    }
    if k < j {
        assert(!board.contains_key(ray_square(sq, dir, k)));
    }
}

/// The first occupied square of a ray decides the ray: when it holds
/// anything but a piece of `side` that slides that way, the ray carries no
/// attack by `side`, whatever stands behind it.
pub proof fn lemma_blocked_ray(board: Map<int, Piece>, side: Side, sq: int, dir: Direction, k: int)
    requires
        first_blocker(board, sq, dir, k),
    ensures
        ray_attacks(board, side, sq, dir) == slider_stands(board, side, dir, ray_square(sq, dir, k)),
{
    if ray_attacks(board, side, sq, dir) {
        let n = choose|n: int| #[trigger]
            first_blocker(board, sq, dir, n) && slider_stands(
                board,
                side,
                dir,
                ray_square(sq, dir, n),
            );
        lemma_first_blocker_unique(board, sq, dir, n, k);
    }
}

/// A ray on which every square up to the edge is empty carries no attack.
pub proof fn lemma_empty_ray(board: Map<int, Piece>, side: Side, sq: int, dir: Direction)
    requires
        forall|k: int|
            1 <= k && ray_on_board(sq, dir, k) ==> !board.contains_key(
                #[trigger] ray_square(sq, dir, k),
            ),
    ensures
        !ray_attacks(board, side, sq, dir),
{
}

/// The queen query is the rook query or the bishop query.
pub proof fn lemma_queen_query(board: Map<int, Piece>, side: Side, sq: int)
    ensures
        attacked_by(board, side, PieceKind::Queen, sq) == (attacked_by(
            board,
            side,
            PieceKind::Rook,
            sq,
        ) || attacked_by(board, side, PieceKind::Bishop, sq)),
{
}

/// The board that holds a single piece.
pub open spec fn lone_piece(piece: Piece, at: int) -> Map<int, Piece> {
    Map::empty().insert(at, piece)
}

/// On a board that holds nothing but one rook, the rook query is true of
/// exactly the other squares on the rook's file and rank.
pub proof fn lemma_lone_rook(side: Side, at: int, sq: int)
    requires
        valid_square(at),
        valid_square(sq),
    ensures
        orthogonal_attacks(lone_piece(Piece { side, kind: PieceKind::Rook }, at), side, sq) <==> sq
            != at && (file_of(sq) == file_of(at) || rank_of(sq) == rank_of(at)),
{
    let board = lone_piece(Piece { side, kind: PieceKind::Rook }, at);
    let df = file_of(at) - file_of(sq);
    let dr = rank_of(at) - rank_of(sq);
    lemma_coords_square(at);
    lemma_coords_square(sq);
    if sq != at && (df == 0 || dr == 0) {
        let dir = if dr > 0 {
            Direction::North
        } else if dr < 0 {
            Direction::South
        } else if df > 0 {
            Direction::East
        } else {
            Direction::West
        };
        let k = dist(df) + dist(dr);
        assert(ray_square(sq, dir, k) == at);
        assert forall|j: int| 1 <= j < k implies !board.contains_key(
            #[trigger] ray_square(sq, dir, j),
        ) by {
            lemma_square_coords(
                file_of(sq) + dir.file_shift(j),
                rank_of(sq) + dir.rank_shift(j),
            );
        }
        assert(first_blocker(board, sq, dir, k));
        assert(slider_stands(board, side, dir, ray_square(sq, dir, k)));
        assert(ray_attacks(board, side, sq, dir));
    }
    if orthogonal_attacks(board, side, sq) {
        let dir = if ray_attacks(board, side, sq, Direction::North) {
            Direction::North
        } else if ray_attacks(board, side, sq, Direction::South) {
            Direction::South
        } else if ray_attacks(board, side, sq, Direction::East) {
            Direction::East
        } else {
            Direction::West
        };
        let k = choose|k: int| #[trigger]
            first_blocker(board, sq, dir, k) && slider_stands(
                board,
                side,
                dir,
                ray_square(sq, dir, k),
            );
        assert(ray_square(sq, dir, k) == at);
        lemma_square_coords(file_of(sq) + dir.file_shift(k), rank_of(sq) + dir.rank_shift(k));
    }
}

} // verus!
