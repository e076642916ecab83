//! User interface events that boards handle, and the results of handling them.
use vstd::prelude::*;
use crate::input::keys::ModifierState;
use crate::model::data::PadId;

verus! {

/// A key event: the virtual key code and the modifiers held.
#[derive(Debug, Clone, Copy, PartialEq, Eq, Structural)]
pub struct KeyboardEvent {
    pub key: u32,
    pub modifiers: ModifierState,
}

/// Where a mouse event happened: the board's header or one of its pads.
#[derive(Debug, Clone, Copy, PartialEq, Eq, Structural)]
pub enum MouseEventTarget {
    Header,
    Pad(PadId),
}

/// A mouse event: its target and the modifiers held.
#[derive(Debug, Clone, Copy, PartialEq, Eq, Structural)]
pub struct MouseEvent {
    pub target: MouseEventTarget,
    pub modifiers: ModifierState,
}

/// An event of the user interface.
#[derive(Debug, Clone, Copy, PartialEq, Eq, Structural)]
pub enum UiEvent {
    KeyDown(KeyboardEvent),
    KeyUp(KeyboardEvent),
    RightMouseDown(MouseEvent),
}

impl UiEvent {
    /// The modifiers held during the event.
    pub open spec fn modifiers_spec(self) -> ModifierState {
        match self {
            UiEvent::KeyDown(e) => e.modifiers,
            UiEvent::KeyUp(e) => e.modifiers,
            UiEvent::RightMouseDown(e) => e.modifiers,
        }
    }

    /// The modifiers held during the event.
    pub fn modifiers(&self) -> (r: ModifierState)
        ensures
            r == self.modifiers_spec(),
    {
        match self {
            UiEvent::KeyDown(event) => event.modifiers,
            UiEvent::KeyUp(event) => event.modifiers,
            UiEvent::RightMouseDown(event) => event.modifiers,
        }
    }
}

/// A direction on the screen.
#[derive(Debug, Clone, Copy, PartialEq, Eq, Structural)]
pub enum Direction {
    Left,
    Right,
    Up,
    Down,
}

/// A change of the window's place: move it, or change its size, one step in a
/// direction.
#[derive(Debug, Clone, Copy, PartialEq, Eq, Structural)]
pub enum SetWindowPosCommand {
    Move(Direction),
    Size(Direction),
}

/// The editor windows a board can ask for.
#[derive(Debug, Clone, Copy, PartialEq, Eq, Structural)]
pub enum ChildWindowRequest {
    PadEditor,
    ColorEditor,
    FontSelector,
    ChainEditor,
}

/// What handling an event yields: whether it was handled, what to redraw or do
/// with the window, and whether to leave the board.
#[derive(Debug, Clone, Copy, PartialEq, Eq, Structural)]
pub enum UiEventResult {
    Handled,
    NotHandled,
    RequiresRedraw,
    PadSelected(PadId),
    CloseWindow,
    SetWindowPos(SetWindowPosCommand),
    RequestChildWindow(ChildWindowRequest),
    /// Leave the board, handing nothing back.
    PopState,
}

} // verus!
