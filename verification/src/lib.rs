//! A verified core for Conway's Game of Life on a fixed-size, hard-edged
//! grid: the board representation, neighbor counting, the double-buffered
//! generation step, and the editor/simulation mode machine that decides how
//! input events mutate the board.
//!
//! Rendering, windowing and raw device input live outside this crate; they
//! feed abstract [`controller::InputEvent`] values in and read the board
//! snapshot back out.

pub mod controller;
pub mod engine;
pub mod laws;
pub mod mode;
