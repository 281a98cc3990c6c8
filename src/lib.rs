//! A terminal snake game's rules: the grid, the heading, the snake and its
//! food, and what one tick of play does to them. Terminal input, drawing and
//! timing are left to the program that runs the game.

pub mod grid;
pub mod input;
pub mod game;
