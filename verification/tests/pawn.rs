use bitchess::bitboard::{BitBoard, BoardRepresentation};
use bitchess::moves::MoveGenerator;
use bitchess::moves::pawn::PawnMoveGenerator;

#[test]
fn pawn_test_pawn_move() {
    let generator = PawnMoveGenerator {};
    let board = BoardRepresentation::default();
    let moves = generator.generate_moves(&BitBoard::new(1 << 8), &board);
    assert_eq!(moves.len(), 2);
    assert_eq!(moves[0].board, 1 << 16);
    assert_eq!(moves[1].board, 1 << 24);
}

#[test]
fn test_pawn_move_blocked() {
    let generator = PawnMoveGenerator {};
    let mut board = BoardRepresentation::default();
    board.white.bitor_assign(BitBoard::new(1 << 16));
    let moves = generator.generate_moves(&BitBoard::new(1 << 8), &board);
    assert_eq!(moves.len(), 0);

    let mut board = BoardRepresentation::default();
    board.black.bitor_assign(BitBoard::new(1 << 16));
    let moves = generator.generate_moves(&BitBoard::new(1 << 8), &board);
    assert_eq!(moves.len(), 0);

    let mut board = BoardRepresentation::default();
    board.white.bitor_assign(BitBoard::new(1 << 24));
    let moves = generator.generate_moves(&BitBoard::new(1 << 8), &board);
    assert_eq!(moves.len(), 1);
    assert_eq!(moves[0].board, 1 << 16);

    let mut board = BoardRepresentation::default();
    board.black.bitor_assign(BitBoard::new(1 << 24));
    let moves = generator.generate_moves(&BitBoard::new(1 << 8), &board);
    assert_eq!(moves.len(), 1);
    assert_eq!(moves[0].board, 1 << 16);
}

#[test]
fn test_pawn_move_outside_board() {
    let generator = PawnMoveGenerator {};
    let board = BoardRepresentation::default();
    let moves = generator.generate_moves(&BitBoard::new(1 << 56), &board);
    assert_eq!(moves.len(), 0);

    let moves = generator.generate_moves(&BitBoard::new(1 << 63), &board);
    assert_eq!(moves.len(), 0);
}

#[test]
fn test_every_last_rank_source_yields_nothing() {
    let generator = PawnMoveGenerator {};
    let board = BoardRepresentation::default();
    for square in 56..64u64 {
        let moves = generator.generate_moves(&BitBoard::new(1 << square), &board);
        assert_eq!(moves.len(), 0);
    }
}

#[test]
fn test_every_rank_two_source_on_default_board_yields_two() {
    let generator = PawnMoveGenerator {};
    let board = BoardRepresentation::default();
    for square in 8..16u64 {
        let moves = generator.generate_moves(&BitBoard::new(1 << square), &board);
        assert_eq!(moves.len(), 2);
        assert_eq!(moves[0].board, 1 << (square + 8));
        assert_eq!(moves[1].board, 1 << (square + 16));
    }
}

#[test]
fn test_middle_source_on_default_board_yields_one() {
    let generator = PawnMoveGenerator {};
    let board = BoardRepresentation::default();
    for square in 16..40u64 {
        let moves = generator.generate_moves(&BitBoard::new(1 << square), &board);
        assert_eq!(moves.len(), 1);
        assert_eq!(moves[0].board, 1 << (square + 8));
    }
}

#[test]
fn test_one_step_free_two_step_blocked_from_middle_rank() {
    // A non-rank-two source is never offered a double push, blocked or not.
    let generator = PawnMoveGenerator {};
    let mut board = BoardRepresentation::default();
    board.black.bitor_assign(BitBoard::new(1 << 36));
    let moves = generator.generate_moves(&BitBoard::new(1 << 20), &board);
    assert_eq!(moves.len(), 1);
    assert_eq!(moves[0].board, 1 << 28);
}
