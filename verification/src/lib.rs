//! A grid of character cells as a line-oriented editor UI drives it, and the
//! decisions that go into drawing it: which cells change, which pixels they
//! cover, where the cursor is shown and how far scroll and blink animations
//! have come. Drawing itself is left to the caller, who is told what to
//! draw.
//!
//! Lengths, offsets and positions are integers in units of 1/1024: of a
//! pixel for lengths and offsets, of a cell for cursor positions. Times are
//! in microseconds.

pub mod bridge;
pub mod color;
pub mod context;
pub mod cursor;
pub mod error;
pub mod grid;
pub mod input;
pub mod metrics;
pub mod pointer;
pub mod render;
pub mod row;
pub mod surfaces;
pub mod units;
