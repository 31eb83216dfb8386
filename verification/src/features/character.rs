//! The character feature slice.
pub mod ai;
pub mod animation;
pub mod attack;
pub mod debug_control;
pub mod knockback;
pub mod movement;
pub mod sound;
pub mod state_debug;
pub mod state_machine;
