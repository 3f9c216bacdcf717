//! The timed display buffer and the frame loop's decisions.

pub mod laws;
pub mod layout;
pub mod ui;
pub mod visualiser;
