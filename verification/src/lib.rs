//! A game of two snakes on one grid: the geometry of the grid, the snakes,
//! the placement of food and rocks, and the rules of one tick of the game.
//! Every function is verified against its contract; the window, the keyboard
//! and the terminal are left to the program that uses the library.

pub mod config;
pub mod game;
pub mod geometry;
pub mod placement;
pub mod snake;
