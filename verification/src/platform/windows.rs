//! Windows.

pub mod layout;
pub mod windows;
