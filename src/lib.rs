//! A standard chessboard as data: the 64 squares with their names and
//! colours, the starting position, and the map from coordinates to a flat
//! board index.

pub mod square;
pub mod coords;
pub mod piece;
pub mod board;
