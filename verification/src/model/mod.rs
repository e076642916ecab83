//! The board model: pads, anchors, colors and fonts, and handles on the
//! components of the settings.
pub mod data;
pub mod handle;
pub mod board_ops;
pub mod pads;
