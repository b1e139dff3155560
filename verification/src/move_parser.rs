use vstd::prelude::*;
use vstd::string::StrSliceExecFns;

use crate::bitboard::{BitBoard, Move, PieceType};

verus! {

/// The 0-indexed file denoted by a file letter, or `None` outside `a` to `h`.
pub open spec fn file_index(c: char) -> Option<int> {
    match c {
        'a' => Some(0int),
        'b' => Some(1int),
        'c' => Some(2int),
        'd' => Some(3int),
        'e' => Some(4int),
        'f' => Some(5int),
        'g' => Some(6int),
        'h' => Some(7int),
        _ => None,
    }
}

/// The 0-indexed rank denoted by a rank digit, or `None` outside `1` to `8`.
pub open spec fn rank_index(c: char) -> Option<int> {
    match c {
        '1' => Some(0int),
        '2' => Some(1int),
        '3' => Some(2int),
        '4' => Some(3int),
        '5' => Some(4int),
        '6' => Some(5int),
        '7' => Some(6int),
        '8' => Some(7int),
        _ => None,
    }
}

/// The piece kind a leading letter selects; any other character implies a
/// pawn move.
pub open spec fn prefix_piece(c: char) -> PieceType {
    match c {
        'R' => PieceType::Rook,
        'N' => PieceType::Knight,
        'B' => PieceType::Bishop,
        'Q' => PieceType::Queen,
        'K' => PieceType::King,
        _ => PieceType::Pawn,
    }
}

/// The promotion piece a trailing letter selects; any other character yields
/// no promotion.
pub open spec fn promotion_piece(c: char) -> Option<PieceType> {
    match c {
        'R' => Some(PieceType::Rook),
        'N' => Some(PieceType::Knight),
        'B' => Some(PieceType::Bishop),
        'Q' => Some(PieceType::Queen),
        _ => None,
    }
}

/// Whether a token is a well-formed move: a pawn token starts with its
/// two-character destination square; any other token puts the destination
/// right after its piece letter.
pub open spec fn token_ok(s: Seq<char>) -> bool {
    &&& s.len() >= 1
    &&& if prefix_piece(s[0]) == PieceType::Pawn {
        &&& s.len() >= 2
        &&& file_index(s[0]) is Some
        &&& rank_index(s[1]) is Some
    } else {
        &&& s.len() >= 3
        &&& file_index(s[1]) is Some
        &&& rank_index(s[2]) is Some
    }
}

/// The piece kind a well-formed token names.
pub open spec fn decoded_piece(s: Seq<char>) -> PieceType {
    prefix_piece(s[0])
}

/// The destination square index (`file + rank * 8`) a well-formed token
/// names.
pub open spec fn decoded_square(s: Seq<char>) -> int {
    if prefix_piece(s[0]) == PieceType::Pawn {
        file_index(s[0])->Some_0 + rank_index(s[1])->Some_0 * 8
    } else {
        file_index(s[1])->Some_0 + rank_index(s[2])->Some_0 * 8
    }
}

/// The promotion a well-formed token names: only a pawn token carries one, in
/// the letter after its destination square.
pub open spec fn decoded_promotion(s: Seq<char>) -> Option<PieceType> {
    if prefix_piece(s[0]) == PieceType::Pawn && s.len() >= 3 {
        promotion_piece(s[2])
    } else {
        None
    }
}

/// Turn a file letter and a rank digit into the single-bit mask of the square
/// they name, or the fixed diagnostic when either is out of range.
pub fn parse_square(file: char, rank: char) -> (r: Result<BitBoard, String>)
    ensures
        r is Ok <==> file_index(file) is Some && rank_index(rank) is Some,
        r is Ok ==> r->Ok_0.board == 1u64 << ((file_index(file)->Some_0 + rank_index(
            rank,
        )->Some_0 * 8) as u64),
        r is Err ==> r->Err_0@ == "Invalid move"@,
{
    let f: u64 = match file {
        'a' => 0,
        'b' => 1,
        'c' => 2,
        'd' => 3,
        'e' => 4,
        'f' => 5,
        'g' => 6,
        'h' => 7,
        _ => {
            return Err("Invalid move".to_owned());
        },
    };
    let k: u64 = match rank {
        '1' => 0,
        '2' => 1,
        '3' => 2,
        '4' => 3,
        '5' => 4,
        '6' => 5,
        '7' => 6,
        '8' => 7,
        _ => {
            return Err("Invalid move".to_owned());
        },
    };
    Ok(BitBoard::new(1u64 << (f + k * 8)))
}

/// Decode a restricted algebraic move token: an optional leading piece letter
/// (absence implies a pawn), a two-character destination square, and, for a
/// pawn, one skipped character followed by an optional promotion letter.
/// Every malformed token fails with the fixed diagnostic.
pub fn parse_move(move_string: &str) -> (r: Result<Move, String>)
    ensures
        r is Ok <==> token_ok(move_string@),
        r is Ok ==> r->Ok_0.piece == decoded_piece(move_string@),
        r is Ok ==> r->Ok_0.to.board == 1u64 << (decoded_square(move_string@) as u64),
        r is Ok ==> r->Ok_0.promotion == decoded_promotion(move_string@),
        r is Err ==> r->Err_0@ == "Invalid move"@,
{
    let n = move_string.unicode_len();
    if n == 0 {
        return Err("Invalid move".to_owned());
    }
    let first = move_string.get_char(0);
    let piece = match first {
        'R' => PieceType::Rook,
        'N' => PieceType::Knight,
        'B' => PieceType::Bishop,
        'Q' => PieceType::Queen,
        'K' => PieceType::King,
        _ => PieceType::Pawn,
    };
    if piece == PieceType::Pawn {
        if n < 2 {
            return Err("Invalid move".to_owned());
        }
        let second = move_string.get_char(1);
        let promotion: Option<PieceType> = if n >= 3 {
            match move_string.get_char(2) {
                'R' => Some(PieceType::Rook),
                'N' => Some(PieceType::Knight),
                'B' => Some(PieceType::Bishop),
                'Q' => Some(PieceType::Queen),
                _ => None,
            }
        } else {
            None
        };
        match parse_square(first, second) {
            Ok(to) => Ok(Move::new(piece, to, promotion)),
            Err(e) => Err(e),
        }
    } else {
        if n < 3 {
            return Err("Invalid move".to_owned());
        }
        let second = move_string.get_char(1);
        let third = move_string.get_char(2);
        match parse_square(second, third) {
            Ok(to) => Ok(Move::new(piece, to, None)),
            Err(e) => Err(e),
        }
    }
}

} // verus!
