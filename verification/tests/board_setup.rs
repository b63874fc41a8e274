use chess_board::board::BoardError;
use chess_board::board::BoardState;
use chess_board::board::Coordinate;
use chess_board::board::PieceColor;
use chess_board::board::PieceKind;

#[test]
fn test_standard_piece_count() {
    let b = BoardState::standard();
    assert_eq!(b.num_pieces(), 32);
}

#[test]
fn test_standard_white_back_rank() {
    let b = BoardState::standard();
    let kinds = [
        PieceKind::Rook,
        PieceKind::Knight,
        PieceKind::Bishop,
        PieceKind::Queen,
        PieceKind::King,
        PieceKind::Bishop,
        PieceKind::Knight,
        PieceKind::Rook,
    ];
    for rank in 0..8u8 {
        let p = b.piece(rank as usize);
        assert_eq!(p.color, PieceColor::White);
        assert_eq!(p.kind, kinds[rank as usize]);
        assert_eq!(p.position, Coordinate::new(0, rank));
    }
}

#[test]
fn test_standard_pawns_and_black_side() {
    let b = BoardState::standard();
    for rank in 0..8u8 {
        let white_pawn = b.piece(8 + rank as usize);
        assert_eq!(white_pawn.color, PieceColor::White);
        assert_eq!(white_pawn.kind, PieceKind::Pawn);
        assert_eq!(white_pawn.position, Coordinate::new(1, rank));

        let black_back = b.piece(16 + rank as usize);
        assert_eq!(black_back.color, PieceColor::Black);
        assert_eq!(black_back.position, Coordinate::new(7, rank));

        let black_pawn = b.piece(24 + rank as usize);
        assert_eq!(black_pawn.color, PieceColor::Black);
        assert_eq!(black_pawn.kind, PieceKind::Pawn);
        assert_eq!(black_pawn.position, Coordinate::new(6, rank));
    }
    assert_eq!(b.piece(19).kind, PieceKind::Queen);
    assert_eq!(b.piece(20).kind, PieceKind::King);
}

#[test]
fn test_standard_occupancy_matches_positions() {
    let b = BoardState::standard();
    for id in 0..b.num_pieces() {
        let p = b.piece(id);
        assert_eq!(b.occupant_at(p.position), Some(id));
    }
    for file in 2..6u8 {
        for rank in 0..8u8 {
            assert_eq!(b.occupant_at(Coordinate::new(file, rank)), None);
        }
    }
}

#[test]
fn test_is_white_checker_pattern() {
    assert!(!Coordinate::new(0, 0).is_white());
    assert!(Coordinate::new(0, 1).is_white());
    assert!(Coordinate::new(1, 0).is_white());
    assert!(!Coordinate::new(7, 7).is_white());
    for file in 0..8u8 {
        for rank in 0..7u8 {
            let here = Coordinate::new(file, rank).is_white();
            let next = Coordinate::new(file, rank + 1).is_white();
            assert_ne!(here, next);
        }
    }
}

#[test]
fn test_move_piece_updates_occupancy() {
    let mut b = BoardState::standard();
    let from = Coordinate::new(1, 0);
    let to = Coordinate::new(3, 0);
    assert_eq!(b.move_piece(8, to), Ok(()));
    assert_eq!(b.occupant_at(from), None);
    assert_eq!(b.occupant_at(to), Some(8));
    assert_eq!(b.piece(8).position, to);
}

#[test]
fn test_move_piece_invalid_id() {
    let mut b = BoardState::standard();
    let to = Coordinate::new(3, 0);
    assert_eq!(b.move_piece(32, to), Err(BoardError::InvalidPieceId));
    assert_eq!(b.num_pieces(), 32);
    assert_eq!(b.occupant_at(to), None);
    assert_eq!(b.occupant_at(Coordinate::new(1, 0)), Some(8));
}

#[test]
fn test_move_piece_eviction_leaves_stale_record() {
    let mut b = BoardState::standard();
    let to = Coordinate::new(0, 1);
    assert_eq!(b.move_piece(0, to), Ok(()));
    // The mover owns the destination record; its old square is empty.
    assert_eq!(b.occupant_at(to), Some(0));
    assert_eq!(b.occupant_at(Coordinate::new(0, 0)), None);
    assert_eq!(b.piece(0).position, to);
    // Known gap of the move flow: the evicted knight is no longer recorded
    // anywhere, yet its own position field still reports the square.
    assert_eq!(b.piece(1).position, to);
}
