use vstd::prelude::*;

use crate::bitboard::{BitBoard, BoardRepresentation};

pub mod pawn;

verus! {

/// The per-piece-kind move-generation capability: from the single-bit mask of
/// the square holding the piece and the current board, enumerate candidate
/// destination masks in a fixed, generator-defined order. Generators only
/// consider board edges and blocking pieces, never check, pins or the side to
/// move, and never mutate the board they inspect.
pub trait MoveGenerator {
    /// The destination masks the generator yields, as a function of the
    /// source mask and the board alone.
    spec fn moves_spec(&self, source: u64, board: BoardRepresentation) -> Seq<u64>;

    /// Enumerate the candidate destination masks for the piece on
    /// `initial_position`; the result is exactly `moves_spec`, so two calls
    /// on identical inputs agree.
    fn generate_moves(&self, initial_position: &BitBoard, board: &BoardRepresentation) -> (moves:
        Vec<BitBoard>)
        ensures
            moves@.map_values(|b: BitBoard| b.board) == self.moves_spec(
                initial_position.board,
                *board,
            ),
    ;
}

} // verus!
