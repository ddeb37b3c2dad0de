//! Grid harvesting logic: a harvester that walks a grid one queued command
//! at a time, the fields it mows, and the verdict that compares what was
//! mowed with the pattern a round asks for.

pub mod grid;
pub mod field;
pub mod harvestor;
pub mod round;
