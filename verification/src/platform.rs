//! What each platform's capture layer needs computed.

pub mod linux;
pub mod windows;
