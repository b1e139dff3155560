use bitchess::bitboard::PieceType;
use bitchess::move_parser::parse_move;

#[test]
fn move_parser_test_pawn_move() {
    let parsed_move = parse_move("e4");
    assert!(parsed_move.is_ok());
    let parsed_move = parsed_move.unwrap();
    assert_eq!(parsed_move.piece, PieceType::Pawn);
    assert_eq!(parsed_move.to.board, 1 << 28);
    assert!(parsed_move.promotion.is_none());
}

#[test]
fn test_knight_move() {
    let parsed_move = parse_move("Nf3");
    assert!(parsed_move.is_ok());
    let parsed_move = parsed_move.unwrap();
    assert_eq!(parsed_move.piece, PieceType::Knight);
    assert_eq!(parsed_move.to.board, 1 << 21);
    assert!(parsed_move.promotion.is_none());
}

#[test]
fn test_bishop_move() {
    let parsed_move = parse_move("Bb5");
    assert!(parsed_move.is_ok());
    let parsed_move = parsed_move.unwrap();
    assert_eq!(parsed_move.piece, PieceType::Bishop);
    assert_eq!(parsed_move.to.board, 1 << 33);
    assert!(parsed_move.promotion.is_none());
}

#[test]
fn test_rook_move() {
    let parsed_move = parse_move("Rd1");
    assert!(parsed_move.is_ok());
    let parsed_move = parsed_move.unwrap();
    assert_eq!(parsed_move.piece, PieceType::Rook);
    assert_eq!(parsed_move.to.board, 1 << 3);
    assert!(parsed_move.promotion.is_none());
}

#[test]
fn test_queen_move() {
    let parsed_move = parse_move("Qe2");
    assert!(parsed_move.is_ok());
    let parsed_move = parsed_move.unwrap();
    assert_eq!(parsed_move.piece, PieceType::Queen);
    assert_eq!(parsed_move.to.board, 1 << 12);
    assert!(parsed_move.promotion.is_none());
}

#[test]
fn test_king_move() {
    let parsed_move = parse_move("Ke1");
    assert!(parsed_move.is_ok());
    let parsed_move = parsed_move.unwrap();
    assert_eq!(parsed_move.piece, PieceType::King);
    assert_eq!(parsed_move.to.board, 1 << 4);
    assert!(parsed_move.promotion.is_none());
}

#[test]
fn test_empty_token_fails() {
    let parsed_move = parse_move("");
    assert!(parsed_move.is_err());
    assert_eq!(parsed_move.unwrap_err(), "Invalid move");
}

#[test]
fn test_short_tokens_fail() {
    assert!(parse_move("e").is_err());
    assert!(parse_move("N").is_err());
    assert!(parse_move("Nf").is_err());
}

#[test]
fn test_out_of_range_characters_fail() {
    assert_eq!(parse_move("z4").unwrap_err(), "Invalid move");
    assert_eq!(parse_move("e9").unwrap_err(), "Invalid move");
    assert_eq!(parse_move("i1").unwrap_err(), "Invalid move");
    assert_eq!(parse_move("Nz3").unwrap_err(), "Invalid move");
    assert_eq!(parse_move("Nf0").unwrap_err(), "Invalid move");
    assert_eq!(parse_move("Qe9").unwrap_err(), "Invalid move");
}

#[test]
fn test_pawn_promotion_letter() {
    let parsed_move = parse_move("e8Q").unwrap();
    assert_eq!(parsed_move.piece, PieceType::Pawn);
    assert_eq!(parsed_move.to.board, 1 << 60);
    assert_eq!(parsed_move.promotion, Some(PieceType::Queen));

    let parsed_move = parse_move("a8N").unwrap();
    assert_eq!(parsed_move.to.board, 1 << 56);
    assert_eq!(parsed_move.promotion, Some(PieceType::Knight));

    let parsed_move = parse_move("h8R").unwrap();
    assert_eq!(parsed_move.to.board, 1 << 63);
    assert_eq!(parsed_move.promotion, Some(PieceType::Rook));

    let parsed_move = parse_move("b8B").unwrap();
    assert_eq!(parsed_move.to.board, 1 << 57);
    assert_eq!(parsed_move.promotion, Some(PieceType::Bishop));
}

#[test]
fn test_pawn_other_trailing_letter_gives_no_promotion() {
    let parsed_move = parse_move("e8x").unwrap();
    assert_eq!(parsed_move.piece, PieceType::Pawn);
    assert_eq!(parsed_move.to.board, 1 << 60);
    assert!(parsed_move.promotion.is_none());

    let parsed_move = parse_move("e8K").unwrap();
    assert!(parsed_move.promotion.is_none());
}
