//! The data model: characters, levels and the project settings.
pub mod character;
pub mod level;
pub mod project;
