//! A fixed-grid snake simulation: timers, direction resolution,
//! segment-following movement, food collision and growth, and the mapping
//! from grid cells to viewport coordinates.

pub mod clock;
pub mod direction;
pub mod food;
pub mod game;
pub mod mapper;
pub mod position;
pub mod snake;
