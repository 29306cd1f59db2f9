//! Entities and the per-frame logic that drives them.
pub mod engine;
pub mod entities;
pub mod frame;
pub mod laws;
pub mod state;

pub use engine::{Color, DrawRect, Entity, GameInfo, UpdateResponse};
pub use entities::Raindrop;
pub use frame::{Game, InputEvent, Key, SpawnTimer};
pub use state::{EntityWrapper, GameState};
