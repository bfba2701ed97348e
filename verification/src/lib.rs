//! Simulation core of a grid-based snake game: a wraparound board, a moving
//! and growing chain of body segments, food placement, and a two-phase
//! (running / dead) game state machine.

pub mod board;
pub mod direction;
pub mod food;
pub mod grid;
pub mod movement;
pub mod phase;
pub mod sim;
pub mod snake;
