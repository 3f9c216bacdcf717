//! Linux.

pub mod layout;
