use bitboards::bits::test_bit;
use bitboards::geometry::offset_square;
use bitboards::{Bitboards, Direction, InvalidPosition, Masks, Piece, PieceKind, Side};

const KINDS: [PieceKind; 6] = [
    PieceKind::Pawn,
    PieceKind::Knight,
    PieceKind::Bishop,
    PieceKind::Rook,
    PieceKind::Queen,
    PieceKind::King,
];

const SIDES: [Side; 2] = [Side::White, Side::Black];

fn any_mask_has(position: &Bitboards, pos: usize) -> bool {
    let mut any = false;
    for side in SIDES {
        for kind in KINDS {
            any = any || (position.board(side, kind) >> pos) & 1 == 1;
        }
    }
    any
}

#[test]
fn standard_arrangement_has_the_expected_masks() {
    let m = Bitboards::new().raw();
    assert_eq!(m.white_pawns, 0xff00);
    assert_eq!(m.white_knights, (1 << 1) | (1 << 6));
    assert_eq!(m.white_bishops, (1 << 2) | (1 << 5));
    assert_eq!(m.white_rooks, (1 << 0) | (1 << 7));
    assert_eq!(m.white_queens, 1 << 3);
    assert_eq!(m.white_king, 1 << 4);
    assert_eq!(m.black_pawns, 0xff << 48);
    assert_eq!(m.black_knights, (1 << 57) | (1 << 62));
    assert_eq!(m.black_bishops, (1 << 58) | (1 << 61));
    assert_eq!(m.black_rooks, (1 << 56) | (1 << 63));
    assert_eq!(m.black_queens, 1 << 59);
    assert_eq!(m.black_king, 1 << 60);
    assert_eq!(m, Masks::standard());
}

#[test]
fn standard_arrangement_places_each_piece() {
    let position = Bitboards::new();
    let back = [
        PieceKind::Rook,
        PieceKind::Knight,
        PieceKind::Bishop,
        PieceKind::Queen,
        PieceKind::King,
        PieceKind::Bishop,
        PieceKind::Knight,
        PieceKind::Rook,
    ];
    for file in 0..8 {
        assert_eq!(position.piece_at(file), Some(Piece { side: Side::White, kind: back[file] }));
        assert_eq!(
            position.piece_at(8 + file),
            Some(Piece { side: Side::White, kind: PieceKind::Pawn })
        );
        assert_eq!(
            position.piece_at(48 + file),
            Some(Piece { side: Side::Black, kind: PieceKind::Pawn })
        );
        assert_eq!(
            position.piece_at(56 + file),
            Some(Piece { side: Side::Black, kind: back[file] })
        );
    }
    for pos in 16..48 {
        assert_eq!(position.piece_at(pos), None);
    }
}

#[test]
fn symbols_of_the_first_and_last_rank() {
    let position = Bitboards::new();
    let first: String = (0..8).map(|pos| position.symbol_at(pos)).collect();
    let second: String = (8..16).map(|pos| position.symbol_at(pos)).collect();
    let third: String = (16..24).map(|pos| position.symbol_at(pos)).collect();
    let seventh: String = (48..56).map(|pos| position.symbol_at(pos)).collect();
    let last: String = (56..64).map(|pos| position.symbol_at(pos)).collect();
    assert_eq!(first, "RNBQKBNR");
    assert_eq!(second, "PPPPPPPP");
    assert_eq!(third, "........");
    assert_eq!(seventh, "pppppppp");
    assert_eq!(last, "rnbqkbnr");
}

#[test]
fn piece_symbols() {
    let expected = [['P', 'N', 'B', 'R', 'Q', 'K'], ['p', 'n', 'b', 'r', 'q', 'k']];
    for (s, side) in SIDES.iter().enumerate() {
        for (k, kind) in KINDS.iter().enumerate() {
            assert_eq!(Piece { side: *side, kind: *kind }.symbol(), expected[s][k]);
        }
    }
}

#[test]
fn pieces_by_ordinal() {
    for n in 0..12 {
        let piece = Piece::from_ordinal(n);
        assert_eq!(piece.side, SIDES[n / 6]);
        assert_eq!(piece.kind, KINDS[n % 6]);
    }
}

#[test]
fn opponent_swaps_the_sides() {
    assert_eq!(Side::White.opponent(), Side::Black);
    assert_eq!(Side::Black.opponent(), Side::White);
}

#[test]
fn occupied_agrees_with_the_twelve_masks() {
    let scattered = Masks {
        white_pawns: 0x0000_0010_0800_2400,
        black_queens: 0x0100_0000_0000_0001,
        black_king: 0x8000_0000_0000_0000,
        white_knights: 0x0000_4000_0000_0000,
        ..Masks::empty()
    };
    let positions =
        [Bitboards::new(), Bitboards::from_masks(scattered).unwrap(), empty_position()];
    for position in positions {
        for pos in 0..64 {
            assert_eq!(position.is_occupied(pos), any_mask_has(&position, pos));
            assert_eq!(position.is_occupied(pos), (position.all_occupied() >> pos) & 1 == 1);
            assert_eq!(position.is_occupied(pos), position.piece_at(pos).is_some());
        }
    }
}

fn empty_position() -> Bitboards {
    Bitboards::from_masks(Masks::empty()).unwrap()
}

#[test]
fn occupied_in_the_standard_arrangement() {
    let position = Bitboards::new();
    for pos in 0..64 {
        assert_eq!(position.is_occupied(pos), pos < 16 || pos >= 48);
    }
}

#[test]
fn aggregates_of_the_standard_arrangement() {
    let position = Bitboards::new();
    assert_eq!(position.all_white(), 0x0000_0000_0000_ffff);
    assert_eq!(position.all_black(), 0xffff_0000_0000_0000);
    assert_eq!(position.all_occupied(), 0xffff_0000_0000_ffff);
    assert_eq!(position.side_occupancy(Side::White), position.all_white());
    assert_eq!(position.side_occupancy(Side::Black), position.all_black());
}

#[test]
fn two_pieces_on_one_square_are_rejected() {
    let clash = Masks { white_rooks: 1 << 27, black_pawns: 1 << 27, ..Masks::empty() };
    assert_eq!(Bitboards::from_masks(clash).err(), Some(InvalidPosition));
    let same_side = Masks { white_queens: 0b1010, white_king: 0b0010, ..Masks::empty() };
    assert_eq!(Bitboards::from_masks(same_side).err(), Some(InvalidPosition));
    let last_two = Masks { black_queens: 1 << 63, black_king: 1 << 63, ..Masks::empty() };
    assert_eq!(Bitboards::from_masks(last_two).err(), Some(InvalidPosition));
}

#[test]
fn every_clashing_pair_is_rejected() {
    for a in 0..12 {
        for b in 0..12 {
            let p = Piece::from_ordinal(a);
            let q = Piece::from_ordinal(b);
            let masks = Masks::empty().with(p.side, p.kind, 1 << 40).with(q.side, q.kind, 1 << 40);
            assert_eq!(Bitboards::from_masks(masks).is_err(), a != b);
        }
    }
}

#[test]
fn disjoint_masks_are_accepted_unchanged() {
    let masks = Masks { white_rooks: 1, black_pawns: 1 << 24, ..Masks::empty() };
    let position = Bitboards::from_masks(masks).unwrap();
    assert_eq!(position.raw(), masks);
    assert_eq!(position.board(Side::White, PieceKind::Rook), 1);
    assert_eq!(position.board(Side::Black, PieceKind::Pawn), 1 << 24);
    assert_eq!(position.board(Side::Black, PieceKind::Rook), 0);
    assert!(Bitboards::from_masks(Masks::standard()).is_ok());
    assert!(Bitboards::from_masks(Masks::empty()).is_ok());
}

#[test]
fn masks_get_and_with() {
    let masks = Masks::empty().with(Side::Black, PieceKind::Bishop, 0xf0);
    assert_eq!(masks.black_bishops, 0xf0);
    assert_eq!(masks.get(Side::Black, PieceKind::Bishop), 0xf0);
    assert_eq!(masks.get(Side::White, PieceKind::Bishop), 0);
    assert_eq!(masks.with(Side::Black, PieceKind::Bishop, 0), Masks::empty());
    for side in SIDES {
        for kind in KINDS {
            assert_eq!(Masks::empty().get(side, kind), 0);
        }
    }
}

#[test]
fn holds_tells_side_and_kind() {
    let position = Bitboards::new();
    assert!(position.holds(Side::White, PieceKind::Queen, 3));
    assert!(position.holds(Side::White, PieceKind::King, 4));
    assert!(position.holds(Side::Black, PieceKind::Queen, 59));
    assert!(position.holds(Side::Black, PieceKind::King, 60));
    assert!(!position.holds(Side::Black, PieceKind::King, 4));
    assert!(!position.holds(Side::White, PieceKind::Queen, 4));
    assert!(!position.holds(Side::White, PieceKind::Pawn, 16));
}

#[test]
fn coordinates_on_the_board() {
    assert!(Bitboards::is_coord_on_board(0, 0));
    assert!(Bitboards::is_coord_on_board(7, 7));
    assert!(Bitboards::is_coord_on_board(3, 7));
    assert!(!Bitboards::is_coord_on_board(8, 0));
    assert!(!Bitboards::is_coord_on_board(0, 8));
    assert!(!Bitboards::is_coord_on_board(usize::MAX, 1));
}

#[test]
fn bit_tests() {
    assert!(test_bit(1, 0));
    assert!(!test_bit(1, 1));
    assert!(test_bit(1 << 63, 63));
    assert!(!test_bit(1 << 63, 62));
    assert!(test_bit(0xff00, 8));
    assert!(!test_bit(0xff00, 7));
    assert!(!test_bit(0xff00, 16));
}

#[test]
fn offsets_stop_at_the_edge() {
    assert_eq!(offset_square(0, 1, 2), Some(17));
    assert_eq!(offset_square(0, -1, 0), None);
    assert_eq!(offset_square(0, 0, -1), None);
    assert_eq!(offset_square(7, 1, 0), None);
    assert_eq!(offset_square(7, -2, 1), Some(13));
    assert_eq!(offset_square(63, 0, 1), None);
    assert_eq!(offset_square(63, -1, -1), Some(54));
    assert_eq!(offset_square(28, 0, 0), Some(28));
    assert_eq!(offset_square(28, -4, -3), Some(0));
    assert_eq!(offset_square(28, 4, 0), None);
}

#[test]
fn direction_steps() {
    assert_eq!(Direction::North.step(), (0, 1));
    assert_eq!(Direction::South.step(), (0, -1));
    assert_eq!(Direction::East.step(), (1, 0));
    assert_eq!(Direction::West.step(), (-1, 0));
    assert_eq!(Direction::NorthEast.step(), (1, 1));
    assert_eq!(Direction::NorthWest.step(), (-1, 1));
    assert_eq!(Direction::SouthEast.step(), (1, -1));
    assert_eq!(Direction::SouthWest.step(), (-1, -1));
    assert!(!Direction::North.is_diagonal());
    assert!(!Direction::West.is_diagonal());
    assert!(Direction::NorthEast.is_diagonal());
    assert!(Direction::SouthWest.is_diagonal());
}
