//! A discrete-time grid simulation of a snake that moves on a bounded grid,
//! eats food to grow, and loses on leaving the grid or running into itself.
//!
//! Every transition is stated twice: as a spec function over a mathematical
//! model of the state, and as executable code proved to follow that model.

pub mod geometry;
pub mod snake;
pub mod food;
pub mod store;
pub mod systems;
pub mod session;
