//! A falling-block puzzle engine: the piece catalogue, the board with its
//! active piece, and the rules that every move, rotation and gravity tick obeys.

pub mod board;
pub mod game;
pub mod input;
pub mod laws;
pub mod model;
pub mod piece;
pub mod random;
pub mod shapes;
