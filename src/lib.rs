//! An orbiting camera rig controller for strategy-style games.
//!
//! All geometry is held in fixed point: a coordinate or a quaternion
//! component is an integer count of `geometry::SCALE`-ths of a unit, and
//! the world is bounded to `geometry::MAX_COORD` on each axis.
//! `rig` turns one frame of input into new transforms for a rig node and
//! its camera child; `follow` lets rigs track a moving entity; `laws`
//! states what holds of both over many inputs and frames.
pub mod geometry;
pub mod rig;
pub mod follow;
pub mod laws;
