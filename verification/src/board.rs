//! The occupancy of the board, and the position every game starts from.

use vstd::prelude::*;
use crate::layout::{column_at, index_at, row_at};
use crate::pieces::{Piece, Probability, Square, Team};

verus! {

/// The pieces of a team's back row, from the first column to the last.
pub open spec fn back_row() -> Seq<Piece> {
    seq![
        Piece::Rook,
        Piece::Knight,
        Piece::Bishop,
        Piece::Queen,
        Piece::King,
        Piece::Bishop,
        Piece::Knight,
        Piece::Rook,
    ]
}

/// The square that a piece of `team` fills when it is there in full.
pub open spec fn full_square(piece: Piece, team: Team) -> Square {
    Square::Occupied(piece, Probability::Full, team)
}

/// What stands on the square with index `idx` when a game starts: White's
/// back row on the bottom row and White's pawns above it, Black's pawns on
/// the row below the top and Black's back row on the top row, every piece
/// there in full, and nothing on the four rows between.
pub open spec fn initial_square(idx: int) -> Square {
    let row = row_at(idx);
    let column = column_at(idx);
    if row == 0 {
        full_square(back_row()[column], Team::White)
    } else if row == 1 {
        full_square(Piece::Pawn, Team::White)
    } else if row == 6 {
        full_square(Piece::Pawn, Team::Black)
    } else if row == 7 {
        full_square(back_row()[column], Team::Black)
    } else {
        Square::Empty
    }
}

/// The starting position: all sixty-four squares in index order.
pub open spec fn initial_position() -> Seq<Square> {
    Seq::new(64, |idx: int| initial_square(idx))
}

/// What stands on each of the sixty-four squares, in row-major order from
/// the bottom left corner.
pub struct BoardState {
    squares: Vec<Square>,
}

fn back_row_pieces() -> (line: Vec<Piece>)
    ensures
        line@ == back_row(),
{
    let mut line: Vec<Piece> = Vec::new();
    line.push(Piece::Rook);
    line.push(Piece::Knight);
    line.push(Piece::Bishop);
    line.push(Piece::Queen);
    line.push(Piece::King);
    line.push(Piece::Bishop);
    line.push(Piece::Knight);
    line.push(Piece::Rook);
    assert(line@ =~= back_row());
    line
}

fn pawn_row_pieces() -> (line: Vec<Piece>)
    ensures
        line@ == Seq::new(8, |k: int| Piece::Pawn),
{
    let mut line: Vec<Piece> = Vec::new();
    while line.len() < 8
        invariant
            line@.len() <= 8,
            forall|k: int| 0 <= k < line@.len() ==> line@[k] == Piece::Pawn,
        decreases 8 - line@.len(),
    {
        line.push(Piece::Pawn);
    }
    assert(line@ =~= Seq::new(8, |k: int| Piece::Pawn));
    line
}

fn place_row(squares: &mut Vec<Square>, line: &Vec<Piece>, team: Team)
    ensures
        final(squares)@ == old(squares)@ + line@.map_values(|p: Piece| full_square(p, team)),
{
    let ghost before = squares@;
    let mut k: usize = 0;
    while k < line.len()
        invariant
            k <= line@.len(),
            squares@.len() == before.len() + k,
            forall|j: int| 0 <= j < before.len() ==> squares@[j] == before[j],
            forall|j: int|
                before.len() <= j < before.len() + k ==> squares@[j] == full_square(
                    line@[j - before.len()],
                    team,
                ),
        decreases line@.len() - k,
    {
        squares.push(Square::Occupied(line[k], Probability::Full, team));
        k += 1;
    }
    assert(squares@ =~= before + line@.map_values(|p: Piece| full_square(p, team)));
}

fn leave_empty(squares: &mut Vec<Square>, count: usize)
    ensures
        final(squares)@ == old(squares)@ + Seq::new(count as nat, |k: int| Square::Empty),
{
    let ghost before = squares@;
    let mut k: usize = 0;
    while k < count
        invariant
            k <= count,
            squares@.len() == before.len() + k,
            forall|j: int| 0 <= j < before.len() ==> squares@[j] == before[j],
            forall|j: int| before.len() <= j < before.len() + k ==> squares@[j] == Square::Empty,
        decreases count - k,
    {
        squares.push(Square::Empty);
        k += 1;
    }
    assert(squares@ =~= before + Seq::new(count as nat, |k: int| Square::Empty));
}

impl BoardState {
    #[verifier::type_invariant]
    spec fn full_board(&self) -> bool {
        self.squares@.len() == 64
    }

    /// The board as the sequence of its squares.
    pub closed spec fn view(&self) -> Seq<Square> {
        self.squares@
    }

    /// The square with index `idx`.
    pub fn square(&self, idx: usize) -> (square: Square)
        requires
            idx < 64,
        ensures
            self@.len() == 64,
            square == self@[idx as int],
    {
        proof {
            use_type_invariant(self);
        }
        self.squares[idx]
    }
}

impl Default for BoardState {
    /// The board as it stands when a game starts.
    fn default() -> (board: Self)
        ensures
            board@ == initial_position(),
    {
        let base_line = back_row_pieces();
        let pawn_line = pawn_row_pieces();
        let mut squares: Vec<Square> = Vec::new();
        place_row(&mut squares, &base_line, Team::White);
        place_row(&mut squares, &pawn_line, Team::White);
        leave_empty(&mut squares, 32);
        place_row(&mut squares, &pawn_line, Team::Black);
        place_row(&mut squares, &base_line, Team::Black);
        assert(squares@ =~= initial_position());
        BoardState { squares }
    }
}

/// The two sides start as mirror images of each other: the square straight
/// across the board from a square holds the same piece for the other team,
/// or both are empty.
pub proof fn lemma_initial_position_mirrored(row: int, column: int)
    requires
        0 <= row < 8,
        0 <= column < 8,
    ensures
        initial_position()[index_at(7 - row, column)] == match initial_position()[index_at(
            row,
            column,
        )] {
            Square::Empty => Square::Empty,
            Square::Occupied(piece, probability, Team::White) => Square::Occupied(
                piece,
                probability,
                Team::Black,
            ),
            Square::Occupied(piece, probability, Team::Black) => Square::Occupied(
                piece,
                probability,
                Team::White,
            ),
        },
{
}

/// In the starting position the two rows nearest each player are taken,
/// by that player's pieces and in full, and no other square is.
pub proof fn lemma_initial_occupancy(idx: int)
    requires
        0 <= idx < 64,
    ensures
        idx < 16 ==> initial_position()[idx] matches Square::Occupied(_, Probability::Full, Team::White),
        16 <= idx < 48 ==> initial_position()[idx] == Square::Empty,
        48 <= idx ==> initial_position()[idx] matches Square::Occupied(_, Probability::Full, Team::Black),
{
}

} // verus!
