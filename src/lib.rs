//! Physics and collision core of a 2D tile-based platformer.
//!
//! All lengths and speeds are fixed-point integers counted in hundredths of
//! a world unit (see `geometry::UNIT`).

pub mod geometry;
pub mod tilemap;
pub mod object;
pub mod player;
pub mod enemy;
pub mod sprite;
pub mod state;
pub mod input;
