//! Ergonomic cost metrics for keyboard layouts.
//!
//! The metrics decide which configured cost applies to a key or a pair of
//! keys. They are generic over the cost type: the caller chooses the number
//! type in which costs and corpus weights are expressed and does the weighting.
pub mod cluster_rolls;
pub mod key;
pub mod laws;
pub mod movement_pattern;
pub mod position_penalties;
pub mod roll_stats;
pub mod scissoring;
pub mod table;
