//! Visual styles per category and the settings of the overlay.

pub mod config;
