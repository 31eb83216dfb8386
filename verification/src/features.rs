//! Per-character gameplay features: animation timing, combat, AI and sound,
//! and the HUD's choice of enemy.
pub mod character;
pub mod hud;
