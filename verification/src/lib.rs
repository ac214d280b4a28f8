//! A verified core for a two-player, turn-based 3x3 board game.
//!
//! The library holds the game's logic: the board state machine (grid,
//! move validation, turn progression, win and draw detection), the
//! classification of player input into commands, and the decision step
//! that drives a round of play. Reading input and rendering the board
//! are left to the surrounding program.

pub mod board;
pub mod game;
pub mod player;
