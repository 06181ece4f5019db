//! A terminal tic-tac-toe game, split into a verified core and a render
//! projection.
//!
//! The [`game`] module holds the game state machine: the 3x3 board, the
//! selection cursor, turn alternation, and win/tie detection. The [`render`]
//! module projects a game state into a display-agnostic model (cell symbols,
//! highlighted cell, status line) that a terminal front end can draw.

pub mod game;
pub mod render;
