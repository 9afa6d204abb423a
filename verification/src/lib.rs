//! A verified tic-tac-toe core: a 3x3 board, a win/draw evaluator, and the
//! turn-resolution state machine that decides whose move is next or whether
//! the match has ended.

pub mod board;
pub mod controller;
pub mod evaluator;
pub mod laws;
pub mod states;
