//! Verified core of a belt-scroll beat-'em-up engine: the data model, the
//! per-tick state machines and the text formats that the runtime drives.
pub mod boot;
pub mod entities;
pub mod scenes;
pub mod shared;
pub mod features;
