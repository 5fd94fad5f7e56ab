//! A tick-driven simulation of agents on a discrete grid: a player, wandering
//! AI agents and passive blobs that the player can damage.

pub mod components;
pub mod grid;
pub mod world;
pub mod ai_sys;
pub mod input_sys;
pub mod sprite_movement_sys;
pub mod update_position_sys;
pub mod health_sys;
pub mod cleanup_sys;
pub mod grid_changes;
pub mod blob_interaction;
pub mod game_info;
pub mod pipeline;
