//! What can stand on a square.

use vstd::prelude::*;

verus! {

/// The kind of a chess piece.
#[derive(Debug, Copy, Clone, PartialEq, Eq, Structural)]
pub enum Piece {
    Pawn,
    Bishop,
    Knight,
    Rook,
    Queen,
    King,
}

/// The side a piece plays for.
#[derive(Debug, Copy, Clone, PartialEq, Eq, Structural)]
pub enum Team {
    White,
    Black,
}

/// How much of a piece stands on a square: all of it, or one half of a
/// piece that is in two places at once.
#[derive(Debug, Copy, Clone, PartialEq, Eq, Structural)]
pub enum Probability {
    Full,
    Half,
}

/// One cell of the board: empty, or holding a piece of a team with the
/// probability that the piece is really there.
#[derive(Debug, Copy, Clone, PartialEq, Eq, Structural)]
pub enum Square {
    Empty,
    Occupied(Piece, Probability, Team),
}

} // verus!
