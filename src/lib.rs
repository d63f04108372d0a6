//! A two-player tic-tac-toe engine: the board, the players' marks, move
//! validation and the mover-relative evaluation of win and draw.

pub mod board;
pub mod player;
pub mod input;
pub mod text;
pub mod game;
pub mod lemmas;
