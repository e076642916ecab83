//! Keyboard input: modifier state, virtual keys, shortcut scripts and key capture.
pub mod keys;
pub mod script;
pub mod steps;
pub mod capture;
pub mod api;

pub use keys::ModifierState;

