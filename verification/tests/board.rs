use qhess::board::BoardState;
use qhess::pieces::{Piece, Probability, Square, Team};

fn back_row() -> [Piece; 8] {
    [
        Piece::Rook,
        Piece::Knight,
        Piece::Bishop,
        Piece::Queen,
        Piece::King,
        Piece::Bishop,
        Piece::Knight,
        Piece::Rook,
    ]
}

#[test]
fn white_back_row_stands_on_the_bottom_row() {
    let board = BoardState::default();
    let line = back_row();
    for column in 0..8 {
        assert_eq!(
            board.square(column),
            Square::Occupied(line[column], Probability::Full, Team::White)
        );
    }
}

#[test]
fn black_back_row_stands_on_the_top_row() {
    let board = BoardState::default();
    let line = back_row();
    for column in 0..8 {
        assert_eq!(
            board.square(56 + column),
            Square::Occupied(line[column], Probability::Full, Team::Black)
        );
    }
}

#[test]
fn kings_and_queens_face_each_other() {
    let board = BoardState::default();
    assert_eq!(
        board.square(3),
        Square::Occupied(Piece::Queen, Probability::Full, Team::White)
    );
    assert_eq!(
        board.square(4),
        Square::Occupied(Piece::King, Probability::Full, Team::White)
    );
    assert_eq!(
        board.square(59),
        Square::Occupied(Piece::Queen, Probability::Full, Team::Black)
    );
    assert_eq!(
        board.square(60),
        Square::Occupied(Piece::King, Probability::Full, Team::Black)
    );
}

#[test]
fn pawns_stand_in_front_of_the_back_rows() {
    let board = BoardState::default();
    for idx in 8..16 {
        assert_eq!(
            board.square(idx),
            Square::Occupied(Piece::Pawn, Probability::Full, Team::White)
        );
    }
    for idx in 48..56 {
        assert_eq!(
            board.square(idx),
            Square::Occupied(Piece::Pawn, Probability::Full, Team::Black)
        );
    }
}

#[test]
fn the_four_middle_rows_start_empty() {
    let board = BoardState::default();
    for idx in 16..48 {
        assert_eq!(board.square(idx), Square::Empty);
    }
    assert_ne!(board.square(15), Square::Empty);
    assert_ne!(board.square(48), Square::Empty);
}

#[test]
fn each_team_starts_with_sixteen_full_pieces() {
    let board = BoardState::default();
    let mut white = 0;
    let mut black = 0;
    let mut empty = 0;
    for idx in 0..64 {
        match board.square(idx) {
            Square::Empty => empty += 1,
            Square::Occupied(_, Probability::Full, Team::White) => white += 1,
            Square::Occupied(_, Probability::Full, Team::Black) => black += 1,
            Square::Occupied(_, Probability::Half, _) => panic!("half a piece on square {idx}"),
        }
    }
    assert_eq!(white, 16);
    assert_eq!(black, 16);
    assert_eq!(empty, 32);
}

#[test]
fn each_team_starts_with_the_standard_set() {
    let board = BoardState::default();
    for team in [Team::White, Team::Black] {
        let count = |wanted: Piece| {
            (0..64)
                .filter(|&idx| {
                    board.square(idx) == Square::Occupied(wanted, Probability::Full, team)
                })
                .count()
        };
        assert_eq!(count(Piece::Pawn), 8);
        assert_eq!(count(Piece::Rook), 2);
        assert_eq!(count(Piece::Knight), 2);
        assert_eq!(count(Piece::Bishop), 2);
        assert_eq!(count(Piece::Queen), 1);
        assert_eq!(count(Piece::King), 1);
    }
}

#[test]
fn starting_position_is_mirrored_across_the_board() {
    let board = BoardState::default();
    for row in 0..8 {
        for column in 0..8 {
            let here = board.square(row * 8 + column);
            let across = board.square((7 - row) * 8 + column);
            let expected = match here {
                Square::Empty => Square::Empty,
                Square::Occupied(piece, probability, Team::White) => {
                    Square::Occupied(piece, probability, Team::Black)
                }
                Square::Occupied(piece, probability, Team::Black) => {
                    Square::Occupied(piece, probability, Team::White)
                }
            };
            assert_eq!(across, expected);
        }
    }
}

#[test]
fn two_default_boards_are_alike() {
    let first = BoardState::default();
    let second = BoardState::default();
    for idx in 0..64 {
        assert_eq!(first.square(idx), second.square(idx));
    }
}
