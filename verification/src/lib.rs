//! A perfect-play engine for tic-tac-toe.
//!
//! [`board`] holds the 3×3 grid and the rules that classify a position;
//! [`ai`] holds the exhaustive negamax search that picks a move. Every
//! function states what it computes over the sequence of nine cells that a
//! board stands for, and the search is proved against a recursive definition
//! of the value of a position.

pub mod player;
pub mod board;
pub mod ai;
