//! Rules engine for a grid-based snake game: coordinates and bounds
//! checking, snake movement with a fixed cadence, tail growth capped by the
//! score, self-collision reset, food consumption, and food placement by
//! rejection sampling.
//!
//! Rendering, windowing and input polling belong to the host; this crate
//! holds only the simulation state machine the host calls into.

pub mod food;
pub mod grid;
pub mod sim;
pub mod snake;

pub use grid::Grid;
pub use grid::Pos;
pub use sim::TileColor;
pub use snake::Direction;
pub use snake::MoveTimer;
pub use snake::SnakeState;
pub use snake::Vel;
