//! Board components: user interface events and what handling them yields, the
//! keypad mapping of keys to pads, and small controls and editing modes.
pub mod events;
pub mod keypad;
pub mod controls;
pub mod modes;
pub mod editors;
pub mod window;
pub mod color_editing;
pub mod pad_editor;
pub mod tour;
pub mod boards;
pub mod state_machine;
pub mod board_list;
pub mod font_editing;
pub mod selectors;
