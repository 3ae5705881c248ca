//! A snake game's rules: the grid, the snake's movement and collisions, food
//! placement, the per-tick driver and the menu decisions.

pub mod grid;
pub mod snake;
pub mod food;
pub mod game;
pub mod menu;
pub mod laws;
