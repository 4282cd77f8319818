//! A minimal live-rendering core: a throttled pixel surface and a bounded
//! time-series chart model, both stated and proved with Verus.
//!
//! The crate holds the algorithmic heart of a small plotting tool:
//! rate gating of periodic work ([`gate`]), packing of per-channel pixel
//! bytes into presentable words ([`pixel`]), bounded double-ended series
//! buffers with front/back eviction ([`series`]), axis-range computation
//! over all stored samples ([`chart`]), a generic flat 2-dimensional grid
//! ([`grid`]) and a linear color-map table ([`color`]).
//!
//! Sample coordinates and timestamps are fixed-point integers: the host
//! loop picks a unit (say, thousandths) and converts its floating-point
//! measurements once at the boundary. The window-presentation backend and
//! the 2-dimensional drawing backend are outside collaborators; the host
//! hands their observations (the open flag, the clock) in as plain values
//! and takes buffers and decisions back.

pub mod chart;
pub mod color;
pub mod gate;
pub mod grid;
pub mod pixel;
pub mod series;
