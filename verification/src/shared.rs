//! Cross-cutting value types shared by the entity and feature layers.
pub mod config;
pub mod flip;
pub mod input;
pub mod player_id;
pub mod text;
