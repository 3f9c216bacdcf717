//! Keys, layouts, label resolution and the events they produce.

pub mod input;
pub mod key;
pub mod keyboard;
pub mod keymap;
pub mod layout;
