//! A small per-entity animation driver: it advances transform properties
//! (scale, translation) toward target values in discrete phases, at a
//! constant speed per millisecond, with an optional hold time at each
//! target and an Once/Repeat lifecycle policy.
//!
//! Axis values are fixed-point integers so that arrival checks are exact;
//! the host chooses the unit (for example, 1000 units per scale factor).

pub mod effect;
pub mod laws;
pub mod motion;
pub mod sequence;
