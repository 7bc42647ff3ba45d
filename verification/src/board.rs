//! Plain board-side values: squares, piece kinds, colors, moves and game
//! outcomes. The rules engine owns the position itself; these types carry
//! the parts of it that the coordination logic reads.

use vstd::prelude::*;

verus! {

/// One side of the game.
#[derive(Clone, Copy, Debug, PartialEq, Eq, Structural)]
pub enum Color {
    White,
    Black,
}

impl Color {
    /// The opposing side.
    pub open spec fn spec_other(self) -> Color {
        match self {
            Color::White => Color::Black,
            Color::Black => Color::White,
        }
    }

    pub fn other(self) -> (c: Color)
        ensures
            c == self.spec_other(),
    {
        match self {
            Color::White => Color::Black,
            Color::Black => Color::White,
        }
    }
}

/// A kind of chess piece.
#[derive(Clone, Copy, Debug, PartialEq, Eq, Structural)]
pub enum Piece {
    Pawn,
    Knight,
    Bishop,
    Rook,
    Queen,
    King,
}

/// A board square, addressed by file (column, 0 = `a`) and rank (row,
/// 0 = rank `1`). Both components are always below 8; out-of-range
/// construction fails rather than clamps.
#[derive(Clone, Copy, Debug, PartialEq, Eq, Structural)]
pub struct Square {
    pub file: u8,
    pub rank: u8,
}

impl Square {
    /// Both coordinates lie on the board.
    pub open spec fn wf(self) -> bool {
        self.file < 8 && self.rank < 8
    }

    /// Builds a square from coordinates; fails on anything off the board.
    pub fn new(file: u8, rank: u8) -> (r: Option<Square>)
        ensures
            r matches Some(sq) ==> sq.file == file && sq.rank == rank && sq.wf(),
            r is None <==> (file >= 8 || rank >= 8),
    {
        if file < 8 && rank < 8 {
            Some(Square { file, rank })
        } else {
            None
        }
    }
}

/// A move as the rules engine hands it out: source square, destination
/// square and, for pawn promotions, the chosen piece. Two moves are equal
/// exactly when all three agree.
#[derive(Clone, Copy, Debug)]
pub struct Move {
    pub from: Square,
    pub to: Square,
    pub promotion: Option<Piece>,
}

impl Move {
    /// Both endpoints lie on the board.
    pub open spec fn wf(self) -> bool {
        self.from.wf() && self.to.wf()
    }

    /// A promotion, when present, is to queen, rook, bishop or knight —
    /// the only pieces a pawn may become.
    pub open spec fn promo_ok(self) -> bool {
        match self.promotion {
            None => true,
            Some(p) => p != Piece::Pawn && p != Piece::King,
        }
    }
}

impl PartialEq for Move {
    fn eq(&self, other: &Move) -> (r: bool) {
        self.from == other.from && self.to == other.to && promo_eq(
            self.promotion,
            other.promotion,
        )
    }
}

impl vstd::std_specs::cmp::PartialEqSpecImpl for Move {
    open spec fn obeys_eq_spec() -> bool {
        true
    }

    open spec fn eq_spec(&self, other: &Move) -> bool {
        *self == *other
    }
}

/// Compares two optional promotion pieces.
pub fn promo_eq(a: Option<Piece>, b: Option<Piece>) -> (r: bool)
    ensures
        r == (a == b),
{
    match (a, b) {
        (Some(x), Some(y)) => x == y,
        (None, None) => true,
        _ => false,
    }
}

/// A finished game's outcome, as the rules engine reports it.
#[derive(Clone, Copy, Debug, PartialEq, Eq, Structural)]
pub enum GameOutcome {
    WhiteCheckmates,
    WhiteResigns,
    BlackCheckmates,
    BlackResigns,
    Stalemate,
    DrawAccepted,
    DrawDeclared,
}

} // verus!
