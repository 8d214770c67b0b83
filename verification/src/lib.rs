//! Decision engine for a turn-based, site-capture strategy game.
//!
//! Each turn the engine receives a snapshot of the world (sites, the
//! per-turn construction overlay, visible units, resources) and decides
//! two things: where and what to build, and which barracks should train.
//! The spatial part picks the unclaimed site nearest to the controlled
//! queen and sticks to it until it is taken; the build part runs a fixed
//! priority cascade over the current structure counts.
//!
//! Distances are compared by their squares: for integer coordinates the
//! square root is strictly monotone and injective, so order and exact
//! ties of the Euclidean distances are preserved.

pub mod engine;
pub mod geom;
pub mod text;
pub mod world;
