//! Board model for a game of quantum chess: the pieces, the sixty-four
//! squares in row-major order, their shading and their grid cells, and the
//! position from which every game starts.

pub mod pieces;
pub mod layout;
pub mod board;
