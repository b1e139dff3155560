//! A bit-level chess board core: bitmask square sets, a positional board
//! snapshot with the standard starting position, pluggable per-piece move
//! generation, and a small algebraic-notation move decoder.

pub mod bitboard;
pub mod move_parser;
pub mod moves;
