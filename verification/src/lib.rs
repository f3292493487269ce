//! Rules engine for a two-player game of checkers on an 8x8 board.
//!
//! `board` holds the tiles and the grid, `rules` the verdict on a single
//! move and the forced-capture check, `game` the session that moves are
//! submitted to. `coords` and `prompt` turn what a player types into
//! squares, and `render` turns the board into text.

pub mod board;
pub mod coords;
pub mod game;
pub mod prompt;
pub mod render;
pub mod rules;
