//! The entities of the board and the board that stores them.

pub mod game_object;
pub mod gameboard;
