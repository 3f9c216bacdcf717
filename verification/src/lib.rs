//! Keystroke visualiser core: label resolution and normalisation, category
//! classification, debouncing, and the timed display buffer, with the layout of
//! each frame computed as plain draw commands.
//!
//! Lengths, positions and font sizes are fixed-point integers in thousandths of
//! a point; animation progress is in thousandths; times are milliseconds on the
//! caller's monotonic clock.

pub mod config;
pub mod input;
pub mod platform;
pub mod text;
pub mod ui;
