//! A snake game on a toroidal grid: positions that wrap around the edges, a
//! snake that advances one cell per tick, grows when it eats and stops the game
//! when it runs into itself, and the rules that arbitrate direction input
//! between ticks.
pub mod grid;
pub mod random;
pub mod snake;
pub mod game;
