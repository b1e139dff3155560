use vstd::prelude::*;

use crate::bitboard::{BitBoard, BoardRepresentation, starting_position};
use crate::moves::MoveGenerator;

verus! {

/// The forward pushes a pawn may make from the source mask `source` on a
/// board whose occupied squares form `occupied`: first one step up, when that
/// square is free and the source lies below rank eight; then, from a rank-two
/// source whose next square is free, a second step when the square two ranks
/// up is also free. Pushes only: no captures, no en passant.
pub open spec fn pawn_pushes(source: u64, occupied: u64) -> Seq<u64> {
    let one_step = source << 8;
    let two_step = source << 16;
    let first: Seq<u64> = if one_step & occupied == 0 && source < 0x01_00_00_00_00_00_00_00u64 {
        seq![one_step]
    } else {
        Seq::empty()
    };
    let second: Seq<u64> = if source & 0x00_00_00_00_00_00_FF_00u64 != 0 && two_step & occupied
        == 0 && one_step & occupied == 0 {
        seq![two_step]
    } else {
        Seq::empty()
    };
    first + second
}

/// The pawn's move generator: single and double forward pushes, blocked by an
/// occupant of either color.
pub struct PawnMoveGenerator {}

impl MoveGenerator for PawnMoveGenerator {
    open spec fn moves_spec(&self, source: u64, board: BoardRepresentation) -> Seq<u64> {
        pawn_pushes(source, board.occupied())
    }

    fn generate_moves(&self, initial_position: &BitBoard, board: &BoardRepresentation) -> (moves:
        Vec<BitBoard>) {
        let mut moves: Vec<BitBoard> = Vec::new();
        let occupied = board.white.bitor(board.black);
        let move_one = initial_position.shl(8);
        if move_one.bitand(occupied).eq_u64(0) && initial_position.board < 1u64 << 56 {
            moves.push(move_one);
        }
        if !initial_position.bitand_u64(0x00_00_00_00_00_00_FF_00).eq_u64(0) {
            let move_two = initial_position.shl(16);
            if move_two.bitand(occupied).eq_u64(0) && move_one.bitand(occupied).eq_u64(0) {
                moves.push(move_two);
            }
        }
        proof {
            assert(1u64 << 56 == 0x01_00_00_00_00_00_00_00u64) by (bit_vector);
            assert(moves@.map_values(|b: BitBoard| b.board) =~= pawn_pushes(
                initial_position.board,
                board.occupied(),
            ));
        }
        moves
    }
}

/// A pawn source on rank eight or beyond — any single square with index 56 or
/// above — yields no destinations, whatever occupies the board: the off-board
/// shift is never offered.
pub proof fn lemma_push_off_board_empty(square: u64, occupied: u64)
    requires
        56 <= square < 64,
    ensures
        pawn_pushes(1u64 << square, occupied) == Seq::<u64>::empty(),
{
    assert((1u64 << square) >= 0x01_00_00_00_00_00_00_00u64 && (1u64 << square)
        & 0x00_00_00_00_00_00_FF_00u64 == 0) by (bit_vector)
        requires
            56 <= square < 64,
    ;
    assert(pawn_pushes(1u64 << square, occupied) =~= Seq::<u64>::empty());
}

/// When the square one step ahead of the source is occupied by either color,
/// no destinations are generated, whatever the source rank.
pub proof fn lemma_push_blocked_ahead_empty(source: u64, occupied: u64)
    requires
        (source << 8) & occupied != 0,
    ensures
        pawn_pushes(source, occupied) == Seq::<u64>::empty(),
{
    assert(pawn_pushes(source, occupied) =~= Seq::<u64>::empty());
}

/// On the starting position, a pawn on a rank-two square yields exactly two
/// destinations: the squares one and two ranks up, in that order.
pub proof fn lemma_rank_two_start_two_pushes(square: u64)
    requires
        8 <= square < 16,
    ensures
        pawn_pushes(1u64 << square, starting_position().occupied()) == seq![
            1u64 << (square + 8) as u64,
            1u64 << (square + 16) as u64,
        ],
{
    assert(0x00_00_00_00_00_00_FF_FFu64 | 0xFF_FF_00_00_00_00_00_00u64
        == 0xFF_FF_00_00_00_00_FF_FFu64) by (bit_vector);
    let source = 1u64 << square;
    assert(((source << 8) & 0xFF_FF_00_00_00_00_FF_FFu64 == 0) && source
        < 0x01_00_00_00_00_00_00_00u64 && (source & 0x00_00_00_00_00_00_FF_00u64 != 0) && ((source
        << 16) & 0xFF_FF_00_00_00_00_FF_FFu64 == 0) && (source << 8) == 1u64 << (square + 8) as u64
        && (source << 16) == 1u64 << (square + 16) as u64) by (bit_vector)
        requires
            8 <= square < 16,
            source == 1u64 << square,
    ;
    assert(pawn_pushes(source, starting_position().occupied()) =~= seq![
        1u64 << (square + 8) as u64,
        1u64 << (square + 16) as u64,
    ]);
}

/// On the starting position, a pawn on an empty middle square — index 16 to
/// 39, so past rank two and with the next rank free — yields exactly one
/// destination: the square one rank up. (On the other non-rank-two squares of
/// the starting position the square ahead is occupied and nothing is
/// generated.)
pub proof fn lemma_middle_start_one_push(square: u64)
    requires
        16 <= square < 40,
    ensures
        pawn_pushes(1u64 << square, starting_position().occupied()) == seq![
            1u64 << (square + 8) as u64,
        ],
{
    assert(0x00_00_00_00_00_00_FF_FFu64 | 0xFF_FF_00_00_00_00_00_00u64
        == 0xFF_FF_00_00_00_00_FF_FFu64) by (bit_vector);
    let source = 1u64 << square;
    assert(((source << 8) & 0xFF_FF_00_00_00_00_FF_FFu64 == 0) && source
        < 0x01_00_00_00_00_00_00_00u64 && (source & 0x00_00_00_00_00_00_FF_00u64 == 0) && (source
        << 8) == 1u64 << (square + 8) as u64) by (bit_vector)
        requires
            16 <= square < 40,
            source == 1u64 << square,
    ;
    assert(pawn_pushes(source, starting_position().occupied()) =~= seq![
        1u64 << (square + 8) as u64,
    ]);
}

/// From a rank-two source whose next square is free but whose square two
/// ranks up is occupied, exactly the single step ahead is generated.
pub proof fn lemma_rank_two_blocked_double_push(square: u64, occupied: u64)
    requires
        8 <= square < 16,
        (1u64 << (square + 8) as u64) & occupied == 0,
        (1u64 << (square + 16) as u64) & occupied != 0,
    ensures
        pawn_pushes(1u64 << square, occupied) == seq![1u64 << (square + 8) as u64],
{
    let source = 1u64 << square;
    assert(source < 0x01_00_00_00_00_00_00_00u64 && (source & 0x00_00_00_00_00_00_FF_00u64 != 0)
        && (source << 8) == 1u64 << (square + 8) as u64 && (source << 16) == 1u64 << (square
        + 16) as u64) by (bit_vector)
        requires
            8 <= square < 16,
            source == 1u64 << square,
    ;
    assert(pawn_pushes(source, occupied) =~= seq![1u64 << (square + 8) as u64]);
}

} // verus!
