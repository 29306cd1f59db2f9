//! A small fixed-rate particle animation: two-component vectors, the entity
//! capability, and the frame logic that updates, draws, retires and spawns
//! entities.
pub mod game;
pub mod math;
