//! A snake game on a toroidal grid: the rules of movement, growth,
//! self-collision, food placement and tick timing, with their proofs.

pub mod game;
pub mod grid;
pub mod organism;

pub use game::{GameState, Snapshot, FRAMES_PER_SECOND, MS_PER_FRAME, START_X, START_Y};
pub use grid::{modulus_signed, Direction, GridPosition, GRID_SIZE_X, GRID_SIZE_Y};
pub use organism::{Collision, Food, Player, Segment};
