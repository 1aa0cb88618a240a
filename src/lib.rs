//! A tile-based factory simulation: ore terrain, belts, inserters and mines
//! moving ore items around a grid, advanced one tick at a time.

pub mod geometry;
pub mod lookup;
pub mod noise;
pub mod terrain;
pub mod structures;
pub mod world;
pub mod simulation;
pub mod laws;
