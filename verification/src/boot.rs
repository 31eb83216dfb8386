//! Start-up: command-line options, scene states and render sizes.
pub mod entrypoint;
pub mod pixel_perfect;
