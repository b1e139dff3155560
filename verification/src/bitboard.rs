use vstd::prelude::*;
use vstd::string::StringExecFns;

verus! {

/// Whether `mask` contains the square with index `square` (0 to 63).
pub open spec fn mask_has_square(mask: u64, square: int) -> bool {
    mask & (1u64 << (square as u64)) != 0
}

/// The six chess piece kinds; every consumer handles all of them exhaustively.
#[derive(Debug, PartialEq, Eq, Structural)]
pub enum PieceType {
    Pawn,
    Knight,
    Bishop,
    Rook,
    Queen,
    King,
}

/// A decoded move intent: the moving piece's kind, the destination square as a
/// single-bit mask, and an optional promotion piece. It carries no source
/// square and no legality guarantee.
#[derive(Debug)]
pub struct Move {
    pub piece: PieceType,
    pub to: BitBoard,
    pub promotion: Option<PieceType>,
}

impl Move {
    pub fn new(piece: PieceType, to: BitBoard, promotion: Option<PieceType>) -> (m: Self)
        ensures
            m.piece == piece,
            m.to == to,
            m.promotion == promotion,
    {
        Move { piece, to, promotion }
    }
}

/// A set of squares on the chess board, one bit per square.
///
/// Bit `file + rank * 8` marks the square at that file and rank (both
/// 0-indexed), so each byte holds one rank, rank 1 in the lowest byte.
#[derive(Debug, Clone, Copy, PartialEq, Eq, Structural)]
pub struct BitBoard {
    pub board: u64,
}

impl BitBoard {
    pub fn new(board: u64) -> (b: Self)
        ensures
            b.board == board,
    {
        BitBoard { board }
    }

    /// Shift every square up by `rhs / 8` ranks; bits shifted past square 63
    /// are silently lost, as for a native 64-bit left shift.
    pub fn shl(self, rhs: u8) -> (b: Self)
        requires
            rhs < 64,
        ensures
            b.board == self.board << rhs,
    {
        BitBoard { board: self.board << rhs }
    }

    /// The squares set in both masks.
    pub fn bitand(self, rhs: Self) -> (b: Self)
        ensures
            b.board == self.board & rhs.board,
    {
        BitBoard { board: self.board & rhs.board }
    }

    /// The squares set in this mask and in a raw 64-bit mask.
    pub fn bitand_u64(self, rhs: u64) -> (b: Self)
        ensures
            b.board == self.board & rhs,
    {
        BitBoard { board: self.board & rhs }
    }

    /// The squares set in either mask.
    pub fn bitor(self, rhs: Self) -> (b: Self)
        ensures
            b.board == self.board | rhs.board,
    {
        BitBoard { board: self.board | rhs.board }
    }

    /// Add every square of `rhs` to this mask in place.
    pub fn bitor_assign(&mut self, rhs: Self)
        ensures
            final(self).board == old(self).board | rhs.board,
    {
        self.board = self.board | rhs.board;
    }

    /// Bitwise comparison against a raw 64-bit mask.
    pub fn eq_u64(self, other: u64) -> (r: bool)
        ensures
            r == (self.board == other),
    {
        self.board == other
    }

    /// Render the mask as an 8x8 grid of `x` (square set) and `.` (square
    /// clear), rank 8 first, files left to right, one line per rank.
    pub fn render(&self) -> (s: String)
        ensures
            s@ == mask_grid(self.board),
    {
        let mut out = String::new();
        let mut i: usize = 0;
        while i < 72
            invariant
                i <= 72,
                out@ == mask_grid(self.board).take(i as int),
            decreases 72 - i,
        {
            let col: usize = i % 9;
            if col == 8 {
                out.append("\n");
                proof {
                    reveal_strlit("\n");
                    assert(out@ =~= mask_grid(self.board).take(i + 1));
                }
            } else {
                let rank: usize = 7 - i / 9;
                let square: u64 = (rank * 8 + col) as u64;
                assert(square < 64);
                if self.board & (1u64 << square) != 0 {
                    out.append("x");
                    proof {
                        reveal_strlit("x");
                        assert(out@ =~= mask_grid(self.board).take(i + 1));
                    }
                } else {
                    out.append(".");
                    proof {
                        reveal_strlit(".");
                        assert(out@ =~= mask_grid(self.board).take(i + 1));
                    }
                }
            }
            i = i + 1;
        }
        proof {
            assert(mask_grid(self.board).take(72) =~= mask_grid(self.board));
        }
        out
    }
}

/// The grid character at position `i` (0 to 71) of a rendered mask: every
/// ninth character ends a line, the others show the square at file `i % 9` of
/// rank `7 - i / 9`.
pub open spec fn mask_grid_char(mask: u64, i: int) -> char {
    if i % 9 == 8 {
        '\n'
    } else if mask_has_square(mask, (7 - i / 9) * 8 + i % 9) {
        'x'
    } else {
        '.'
    }
}

/// The full 72-character grid rendering of a mask: eight lines of eight
/// squares, rank 8 first.
pub open spec fn mask_grid(mask: u64) -> Seq<char> {
    Seq::new(72, |i: int| mask_grid_char(mask, i))
}

/// The glyph of one board square: the occupying piece's letter in the fixed
/// precedence order king, queen, rook, bishop, knight, pawn, upper case when
/// the white mask holds the square, or `.` when no piece mask does.
pub open spec fn square_glyph(b: BoardRepresentation, square: int) -> char {
    if mask_has_square(b.kings.board, square) {
        if mask_has_square(b.white.board, square) { 'K' } else { 'k' }
    } else if mask_has_square(b.queens.board, square) {
        if mask_has_square(b.white.board, square) { 'Q' } else { 'q' }
    } else if mask_has_square(b.rooks.board, square) {
        if mask_has_square(b.white.board, square) { 'R' } else { 'r' }
    } else if mask_has_square(b.bishops.board, square) {
        if mask_has_square(b.white.board, square) { 'B' } else { 'b' }
    } else if mask_has_square(b.knights.board, square) {
        if mask_has_square(b.white.board, square) { 'N' } else { 'n' }
    } else if mask_has_square(b.pawns.board, square) {
        if mask_has_square(b.white.board, square) { 'P' } else { 'p' }
    } else {
        '.'
    }
}

/// The grid character at position `i` (0 to 71) of a rendered board: every
/// ninth character ends a line, the others show the glyph of the square at
/// file `i % 9` of rank `7 - i / 9`.
pub open spec fn board_grid_char(b: BoardRepresentation, i: int) -> char {
    if i % 9 == 8 {
        '\n'
    } else {
        square_glyph(b, (7 - i / 9) * 8 + i % 9)
    }
}

/// The full 72-character grid rendering of a board: eight lines of eight
/// squares, rank 8 first.
pub open spec fn board_grid(b: BoardRepresentation) -> Seq<char> {
    Seq::new(72, |i: int| board_grid_char(b, i))
}

/// The complete positional snapshot: one mask per color and one per piece
/// kind. A well-formed board keeps the color masks disjoint, the piece masks
/// pairwise disjoint, and the union of the piece masks equal to the union of
/// the color masks.
pub struct BoardRepresentation {
    pub white: BitBoard,
    pub black: BitBoard,
    pub kings: BitBoard,
    pub queens: BitBoard,
    pub rooks: BitBoard,
    pub bishops: BitBoard,
    pub knights: BitBoard,
    pub pawns: BitBoard,
}

/// The standard chess starting position: ranks 1 and 2 white, ranks 7 and 8
/// black, with the usual piece placement.
pub open spec fn starting_position() -> BoardRepresentation {
    BoardRepresentation {
        white: (BitBoard { board: 0x00_00_00_00_00_00_FF_FFu64 }),
        black: (BitBoard { board: 0xFF_FF_00_00_00_00_00_00u64 }),
        kings: (BitBoard { board: 0x10_00_00_00_00_00_00_10u64 }),
        queens: (BitBoard { board: 0x08_00_00_00_00_00_00_08u64 }),
        rooks: (BitBoard { board: 0x81_00_00_00_00_00_00_81u64 }),
        bishops: (BitBoard { board: 0x24_00_00_00_00_00_00_24u64 }),
        knights: (BitBoard { board: 0x42_00_00_00_00_00_00_42u64 }),
        pawns: (BitBoard { board: 0x00_FF_00_00_00_00_FF_00u64 }),
    }
}

impl BoardRepresentation {
    /// The union of the two color masks: every occupied square.
    pub open spec fn occupied(self) -> u64 {
        self.white.board | self.black.board
    }

    /// The union of the six piece-kind masks.
    pub open spec fn piece_union(self) -> u64 {
        self.kings.board | self.queens.board | self.rooks.board | self.bishops.board
            | self.knights.board | self.pawns.board
    }

    /// The board invariant: disjoint color masks, pairwise disjoint piece
    /// masks, and the piece masks together covering exactly the occupied
    /// squares.
    pub open spec fn well_formed(self) -> bool {
        &&& self.white.board & self.black.board == 0
        &&& self.kings.board & self.queens.board == 0
        &&& self.kings.board & self.rooks.board == 0
        &&& self.kings.board & self.bishops.board == 0
        &&& self.kings.board & self.knights.board == 0
        &&& self.kings.board & self.pawns.board == 0
        &&& self.queens.board & self.rooks.board == 0
        &&& self.queens.board & self.bishops.board == 0
        &&& self.queens.board & self.knights.board == 0
        &&& self.queens.board & self.pawns.board == 0
        &&& self.rooks.board & self.bishops.board == 0
        &&& self.rooks.board & self.knights.board == 0
        &&& self.rooks.board & self.pawns.board == 0
        &&& self.bishops.board & self.knights.board == 0
        &&& self.bishops.board & self.pawns.board == 0
        &&& self.knights.board & self.pawns.board == 0
        &&& self.piece_union() == self.occupied()
    }

    /// The one-character glyph of the square with index `square`: the piece
    /// letter of its occupant, checked in the fixed precedence order king,
    /// queen, rook, bishop, knight, pawn, upper case for white and lower case
    /// for black, or `.` for an empty square.
    fn glyph_at(&self, square: u64) -> (g: &'static str)
        requires
            square < 64,
        ensures
            g@.len() == 1,
            g@[0] == square_glyph(*self, square as int),
    {
        proof {
            reveal_strlit("K");
            reveal_strlit("k");
            reveal_strlit("Q");
            reveal_strlit("q");
            reveal_strlit("R");
            reveal_strlit("r");
            reveal_strlit("B");
            reveal_strlit("b");
            reveal_strlit("N");
            reveal_strlit("n");
            reveal_strlit("P");
            reveal_strlit("p");
            reveal_strlit(".");
        }
        let mask: u64 = 1u64 << square;
        let white: bool = self.white.board & mask != 0;
        if self.kings.board & mask != 0 {
            if white { "K" } else { "k" }
        } else if self.queens.board & mask != 0 {
            if white { "Q" } else { "q" }
        } else if self.rooks.board & mask != 0 {
            if white { "R" } else { "r" }
        } else if self.bishops.board & mask != 0 {
            if white { "B" } else { "b" }
        } else if self.knights.board & mask != 0 {
            if white { "N" } else { "n" }
        } else if self.pawns.board & mask != 0 {
            if white { "P" } else { "p" }
        } else {
            "."
        }
    }

    /// Render the board as an 8x8 grid, rank 8 first, files left to right,
    /// one line per rank, each square drawn by its glyph.
    pub fn render(&self) -> (s: String)
        ensures
            s@ == board_grid(*self),
    {
        let mut out = String::new();
        let mut i: usize = 0;
        while i < 72
            invariant
                i <= 72,
                out@ == board_grid(*self).take(i as int),
            decreases 72 - i,
        {
            let col: usize = i % 9;
            if col == 8 {
                out.append("\n");
                proof {
                    reveal_strlit("\n");
                    assert(out@ =~= board_grid(*self).take(i + 1));
                }
            } else {
                let rank: usize = 7 - i / 9;
                let square: u64 = (rank * 8 + col) as u64;
                assert(square < 64);
                let g = self.glyph_at(square);
                out.append(g);
                proof {
                    assert(out@ =~= board_grid(*self).take(i + 1));
                }
            }
            i = i + 1;
        }
        proof {
            assert(board_grid(*self).take(72) =~= board_grid(*self));
        }
        out
    }

    /// Applying a move is an open extension point: the board is left exactly
    /// as it was.
    pub fn make_move(&mut self, _m: Move)
        ensures
            *final(self) == *old(self),
    {
    }
}

impl Default for BoardRepresentation {
    /// The default board is the standard starting position, which satisfies
    /// the board invariant.
    fn default() -> (board: Self)
        ensures
            board == starting_position(),
            board.well_formed(),
    {
        proof {
            lemma_starting_position_well_formed();
        }
        BoardRepresentation {
            white: BitBoard { board: 0x00_00_00_00_00_00_FF_FF },
            black: BitBoard { board: 0xFF_FF_00_00_00_00_00_00 },
            kings: BitBoard { board: 0x10_00_00_00_00_00_00_10 },
            queens: BitBoard { board: 0x08_00_00_00_00_00_00_08 },
            rooks: BitBoard { board: 0x81_00_00_00_00_00_00_81 },
            bishops: BitBoard { board: 0x24_00_00_00_00_00_00_24 },
            knights: BitBoard { board: 0x42_00_00_00_00_00_00_42 },
            pawns: BitBoard { board: 0x00_FF_00_00_00_00_FF_00 },
        }
    }
}

/// The starting position satisfies the board invariant: its color masks are
/// disjoint, its piece masks are pairwise disjoint, and its piece-mask union
/// equals its color-mask union.
pub proof fn lemma_starting_position_well_formed()
    ensures
        starting_position().well_formed(),
{
    assert((0x00_00_00_00_00_00_FF_FFu64 & 0xFF_FF_00_00_00_00_00_00u64 == 0)
        && (0x10_00_00_00_00_00_00_10u64 & 0x08_00_00_00_00_00_00_08u64 == 0)
        && (0x10_00_00_00_00_00_00_10u64 & 0x81_00_00_00_00_00_00_81u64 == 0)
        && (0x10_00_00_00_00_00_00_10u64 & 0x24_00_00_00_00_00_00_24u64 == 0)
        && (0x10_00_00_00_00_00_00_10u64 & 0x42_00_00_00_00_00_00_42u64 == 0)
        && (0x10_00_00_00_00_00_00_10u64 & 0x00_FF_00_00_00_00_FF_00u64 == 0)
        && (0x08_00_00_00_00_00_00_08u64 & 0x81_00_00_00_00_00_00_81u64 == 0)
        && (0x08_00_00_00_00_00_00_08u64 & 0x24_00_00_00_00_00_00_24u64 == 0)
        && (0x08_00_00_00_00_00_00_08u64 & 0x42_00_00_00_00_00_00_42u64 == 0)
        && (0x08_00_00_00_00_00_00_08u64 & 0x00_FF_00_00_00_00_FF_00u64 == 0)
        && (0x81_00_00_00_00_00_00_81u64 & 0x24_00_00_00_00_00_00_24u64 == 0)
        && (0x81_00_00_00_00_00_00_81u64 & 0x42_00_00_00_00_00_00_42u64 == 0)
        && (0x81_00_00_00_00_00_00_81u64 & 0x00_FF_00_00_00_00_FF_00u64 == 0)
        && (0x24_00_00_00_00_00_00_24u64 & 0x42_00_00_00_00_00_00_42u64 == 0)
        && (0x24_00_00_00_00_00_00_24u64 & 0x00_FF_00_00_00_00_FF_00u64 == 0)
        && (0x42_00_00_00_00_00_00_42u64 & 0x00_FF_00_00_00_00_FF_00u64 == 0)
        && (0x10_00_00_00_00_00_00_10u64 | 0x08_00_00_00_00_00_00_08u64
            | 0x81_00_00_00_00_00_00_81u64 | 0x24_00_00_00_00_00_00_24u64
            | 0x42_00_00_00_00_00_00_42u64 | 0x00_FF_00_00_00_00_FF_00u64
            == 0x00_00_00_00_00_00_FF_FFu64 | 0xFF_FF_00_00_00_00_00_00u64)) by (bit_vector);
}

} // verus!
