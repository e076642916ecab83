//! The decisions of the board window: what a key, a mouse click or a timer tick
//! leads to once the board has had its say, how the window moves or grows, and
//! which part of the window a point falls in.
use vstd::prelude::*;
use crate::components::events::{ChildWindowRequest, Direction, MouseEventTarget, SetWindowPosCommand, UiEventResult};
use crate::input::capture::{modifier_after, ModifierHandler};
use crate::input::keys::vkey::VK_NUMPAD0;
use crate::input::keys::ModifierState;
use crate::model::data::PadId;

verus! {

/// What the window does after an event.
#[derive(Debug, Clone, Copy, PartialEq, Eq, Structural)]
pub enum WindowAction {
    /// Nothing more.
    Ignore,
    /// Draw the board again.
    Redraw,
    /// Open an editor window.
    RequestChild(ChildWindowRequest),
    /// Run the pad.
    SelectPad(PadId),
    /// Move the window or change its size.
    MoveOrSize(SetWindowPosCommand),
    /// Close the board.
    Finish,
    /// The board asked for a change of boards, which the window does not do.
    Unexpected,
}

/// The modifiers after a key went down, and what that key is for the window.
#[derive(Debug, Clone, Copy, PartialEq, Eq, Structural)]
pub struct KeyPress {
    /// The modifiers held now.
    pub state: ModifierState,
    /// The key is a Ctrl, Shift or Alt key.
    pub is_modifier: bool,
    /// The key is a modifier that was already held: it is ignored.
    pub ignored: bool,
    /// The modifiers changed: the board is drawn again.
    pub changed: bool,
}

/// A key went down with the modifiers `old` held.
pub fn press_key(old: ModifierState, vk: u16) -> (r: KeyPress)
    ensures
        r.state == modifier_after(old, vk, true),
        r.is_modifier == ModifierHandler::spec_is_modifier(vk),
        r.changed == (r.is_modifier && r.state != old),
        r.ignored == (r.is_modifier && r.state == old),
{
    let mut handler = ModifierHandler::new(old);
    let is_modifier = handler.handle_key_press(vk);
    let state = *handler.state();
    let same = state == old;
    KeyPress { state, is_modifier, ignored: is_modifier && same, changed: is_modifier && !same }
}

/// A key came up with the modifiers `old` held: the modifiers after it, and
/// whether it is a Ctrl, Shift or Alt key.
pub fn release_key(old: ModifierState, vk: u16) -> (r: (ModifierState, bool))
    ensures
        r.0 == modifier_after(old, vk, false),
        r.1 == ModifierHandler::spec_is_modifier(vk),
{
    let mut handler = ModifierHandler::new(old);
    let is_modifier = handler.handle_key_release(vk);
    (*handler.state(), is_modifier)
}

/// The pad of a numeric keypad key code, if it is one of keys 1 to 9.
pub open spec fn numpad_pad(key: u32) -> Option<int> {
    if VK_NUMPAD0 + 1 <= key <= VK_NUMPAD0 + 9 {
        Some(key - VK_NUMPAD0)
    } else {
        None
    }
}

/// What a key that went down leads to, given what the board answered (`None` when
/// the board handles no events): the board's answer where it took the key; else
/// nothing for a modifier key, running the pad for the keypad keys 1 to 9, and
/// closing the board for any other key (escape among them).
pub open spec fn keydown_action_spec(answer: Option<UiEventResult>, is_modifier: bool, key: u32) -> WindowAction {
    let fallback = if is_modifier {
        WindowAction::Ignore
    } else {
        match numpad_pad(key) {
            Some(n) => WindowAction::SelectPad(PadId::of_num(n)),
            None => WindowAction::Finish,
        }
    };
    match answer {
        Some(UiEventResult::Handled) => WindowAction::Ignore,
        Some(UiEventResult::RequiresRedraw) => WindowAction::Redraw,
        Some(UiEventResult::RequestChildWindow(c)) => WindowAction::RequestChild(c),
        Some(UiEventResult::PadSelected(p)) => WindowAction::SelectPad(p),
        Some(UiEventResult::SetWindowPos(c)) => WindowAction::MoveOrSize(c),
        Some(UiEventResult::NotHandled) => fallback,
        Some(_) => if is_modifier {
            WindowAction::Ignore
        } else {
            fallback
        },
        None => fallback,
    }
}

/// What a key that went down leads to, once the board answered.
pub fn keydown_action(answer: Option<UiEventResult>, is_modifier: bool, key: u32) -> (r: WindowAction)
    ensures
        r == keydown_action_spec(answer, is_modifier, key),
{
    match answer {
        Some(UiEventResult::Handled) => {
            return WindowAction::Ignore;
        },
        Some(UiEventResult::RequiresRedraw) => {
            return WindowAction::Redraw;
        },
        Some(UiEventResult::RequestChildWindow(c)) => {
            return WindowAction::RequestChild(c);
        },
        Some(UiEventResult::PadSelected(p)) => {
            return WindowAction::SelectPad(p);
        },
        Some(UiEventResult::SetWindowPos(c)) => {
            return WindowAction::MoveOrSize(c);
        },
        _ => {},
    }
    if is_modifier {
        return WindowAction::Ignore;
    }
    if key >= VK_NUMPAD0 as u32 + 1 && key <= VK_NUMPAD0 as u32 + 9 {
        let n = (key - VK_NUMPAD0 as u32) as i32;
        WindowAction::SelectPad(PadId::from_keypad_int(n))
    } else {
        WindowAction::Finish
    }
}

/// What a key that came up leads to, once the board answered: a redraw when the
/// board asks for one or the key is a modifier, else nothing.
pub open spec fn keyup_action_spec(answer: Option<UiEventResult>, is_modifier: bool) -> WindowAction {
    match answer {
        Some(UiEventResult::RequiresRedraw) => WindowAction::Redraw,
        Some(UiEventResult::Handled) => WindowAction::Ignore,
        _ => if is_modifier {
            WindowAction::Redraw
        } else {
            WindowAction::Ignore
        },
    }
}

/// What a key that came up leads to, once the board answered.
pub fn keyup_action(answer: Option<UiEventResult>, is_modifier: bool) -> (r: WindowAction)
    ensures
        r == keyup_action_spec(answer, is_modifier),
{
    match answer {
        Some(UiEventResult::RequiresRedraw) => WindowAction::Redraw,
        Some(UiEventResult::Handled) => WindowAction::Ignore,
        _ => if is_modifier {
            WindowAction::Redraw
        } else {
            WindowAction::Ignore
        },
    }
}

/// What a right click on `target` leads to, once the board answered: the
/// board's answer, or running the pad clicked when the board did not take it.
pub open spec fn mouse_action_spec(answer: UiEventResult, target: MouseEventTarget) -> WindowAction {
    match answer {
        UiEventResult::Handled => WindowAction::Ignore,
        UiEventResult::RequiresRedraw => WindowAction::Redraw,
        UiEventResult::PadSelected(p) => WindowAction::SelectPad(p),
        UiEventResult::NotHandled => match target {
            MouseEventTarget::Pad(p) => WindowAction::SelectPad(p),
            MouseEventTarget::Header => WindowAction::Ignore,
        },
        _ => WindowAction::Unexpected,
    }
}

/// What a right click leads to, once the board answered.
pub fn mouse_action(answer: UiEventResult, target: MouseEventTarget) -> (r: WindowAction)
    ensures
        r == mouse_action_spec(answer, target),
{
    match answer {
        UiEventResult::Handled => WindowAction::Ignore,
        UiEventResult::RequiresRedraw => WindowAction::Redraw,
        UiEventResult::PadSelected(p) => WindowAction::SelectPad(p),
        UiEventResult::NotHandled => match target {
            MouseEventTarget::Pad(p) => WindowAction::SelectPad(p),
            MouseEventTarget::Header => WindowAction::Ignore,
        },
        _ => WindowAction::Unexpected,
    }
}

/// What a timer tick does.
#[derive(Debug, Clone, Copy, PartialEq, Eq, Structural)]
pub enum TimerAction {
    /// Nothing.
    Nothing,
    /// Count down: draw the remaining time.
    Redraw,
    /// The time ran out: stop the timers and close the board.
    StopAndFinish,
    /// The feedback of a selection ended: stop the timers and run the pad.
    StopAndRun(PadId),
    /// The feedback ended with no pad selected: stop the timers.
    Stop,
}

/// The countdown after a tick of the timeout timer, and what the tick does: with
/// time left it counts one down and redraws, closing the board when none is left.
pub open spec fn timeout_tick_spec(timeout: u64) -> (u64, TimerAction) {
    if timeout > 0 {
        if timeout - 1 == 0 {
            (0, TimerAction::StopAndFinish)
        } else {
            ((timeout - 1) as u64, TimerAction::Redraw)
        }
    } else {
        (0, TimerAction::Nothing)
    }
}

/// A tick of the timeout timer.
pub fn timeout_tick(timeout: u64) -> (r: (u64, TimerAction))
    ensures
        r == timeout_tick_spec(timeout),
{
    if timeout > 0 {
        let left = timeout - 1;
        if left == 0 {
            (0, TimerAction::StopAndFinish)
        } else {
            (left, TimerAction::Redraw)
        }
    } else {
        (0, TimerAction::Nothing)
    }
}

/// The tick of the feedback timer: run the selected pad, if any.
pub fn feedback_tick(selected: Option<PadId>) -> (r: TimerAction)
    ensures
        r == match selected {
            Some(p) => TimerAction::StopAndRun(p),
            None => TimerAction::Stop,
        },
{
    match selected {
        Some(p) => TimerAction::StopAndRun(p),
        None => TimerAction::Stop,
    }
}

/// A window rectangle: its left, top, right and bottom edges.
#[derive(Debug, Clone, Copy, PartialEq, Eq, Structural)]
pub struct Rect {
    pub left: i32,
    pub top: i32,
    pub right: i32,
    pub bottom: i32,
}

/// The pixels one move or resize step takes.
pub const MOVE_STEP: i32 = 10;

/// The rectangle after a move (the size kept) or a resize (the right or bottom
/// edge moved) of one step.
pub open spec fn moved_spec(r: Rect, cmd: SetWindowPosCommand) -> Rect {
    match cmd {
        SetWindowPosCommand::Move(d) => {
            let left = match d {
                Direction::Left => r.left - MOVE_STEP,
                Direction::Right => r.left + MOVE_STEP,
                _ => r.left as int,
            };
            let top = match d {
                Direction::Up => r.top - MOVE_STEP,
                Direction::Down => r.top + MOVE_STEP,
                _ => r.top as int,
            };
            Rect {
                left: left as i32,
                top: top as i32,
                right: (left + (r.right - r.left)) as i32,
                bottom: (top + (r.bottom - r.top)) as i32,
            }
        },
        SetWindowPosCommand::Size(d) => match d {
            Direction::Left => Rect { right: (r.right - MOVE_STEP) as i32, ..r },
            Direction::Right => Rect { right: (r.right + MOVE_STEP) as i32, ..r },
            Direction::Up => Rect { bottom: (r.bottom - MOVE_STEP) as i32, ..r },
            Direction::Down => Rect { bottom: (r.bottom + MOVE_STEP) as i32, ..r },
        },
    }
}

/// The edges after a step stay within the range of their type, and so does the
/// size that a move keeps.
pub open spec fn move_fits(r: Rect, cmd: SetWindowPosCommand) -> bool {
    &&& i32::MIN <= r.right - r.left <= i32::MAX
    &&& i32::MIN <= r.bottom - r.top <= i32::MAX
    &&& i32::MIN + MOVE_STEP <= r.left <= i32::MAX - MOVE_STEP
    &&& i32::MIN + MOVE_STEP <= r.top <= i32::MAX - MOVE_STEP
    &&& i32::MIN + MOVE_STEP <= r.right <= i32::MAX - MOVE_STEP
    &&& i32::MIN + MOVE_STEP <= r.bottom <= i32::MAX - MOVE_STEP
    &&& match cmd {
        SetWindowPosCommand::Move(_) => i32::MIN <= moved_spec(r, cmd).left + (r.right - r.left) <= i32::MAX
            && i32::MIN <= moved_spec(r, cmd).top + (r.bottom - r.top) <= i32::MAX,
        SetWindowPosCommand::Size(_) => true,
    }
}

impl Rect {
    /// The rectangle after a move or resize of one step.
    pub fn moved(&self, cmd: SetWindowPosCommand) -> (r: Rect)
        requires
            move_fits(*self, cmd),
        ensures
            r == moved_spec(*self, cmd),
    {
        match cmd {
            SetWindowPosCommand::Move(d) => {
                let width = self.right - self.left;
                let height = self.bottom - self.top;
                let mut left = self.left;
                let mut top = self.top;
                match d {
                    Direction::Left => left = left - MOVE_STEP,
                    Direction::Right => left = left + MOVE_STEP,
                    Direction::Up => top = top - MOVE_STEP,
                    Direction::Down => top = top + MOVE_STEP,
                }
                Rect { left, top, right: left + width, bottom: top + height }
            },
            SetWindowPosCommand::Size(d) => match d {
                Direction::Left => Rect { right: self.right - MOVE_STEP, ..*self },
                Direction::Right => Rect { right: self.right + MOVE_STEP, ..*self },
                Direction::Up => Rect { bottom: self.bottom - MOVE_STEP, ..*self },
                Direction::Down => Rect { bottom: self.bottom + MOVE_STEP, ..*self },
            },
        }
    }
}

/// Where a point of a window of the given size falls: outside when it is beyond
/// both the width and the height, in the header (the top tenth), or in one of the
/// 3x3 pads below it, numbered as on the keypad (1 to 3 in the bottom row).
pub open spec fn hit_test_spec(width: int, height: int, x: int, y: int) -> Option<MouseEventTarget> {
    let header = height / 10;
    let pad_height = (height - header) / 3;
    let pad_width = width / 3;
    let pad_x = x / pad_width;
    let pad_y = 2 - (y - header) / pad_height;
    if x > width && y > height {
        None
    } else if y < header {
        Some(MouseEventTarget::Header)
    } else if 0 <= pad_x < 3 && 0 <= pad_y < 3 {
        Some(MouseEventTarget::Pad(PadId::of_num(pad_x + pad_y * 3 + 1)))
    } else {
        None
    }
}

/// Where a point of a window of the given size falls. A point that reaches the
/// pads needs a window at least three pixels wide, and below its header at least
/// three pixels high.
pub fn hit_test(width: i32, height: i32, x: u16, y: u16) -> (r: Option<MouseEventTarget>)
    requires
        (x > width && y > height) || y < height / 10 || (width >= 3 && height - height / 10 >= 3),
    ensures
        r == hit_test_spec(width as int, height as int, x as int, y as int),
{
    let x = x as i32;
    let y = y as i32;
    if x > width && y > height {
        return None;
    }
    let header = height / 10;
    if y < header {
        return Some(MouseEventTarget::Header);
    }
    let pad_height = (height - header) / 3;
    let pad_width = width / 3;
    let pad_x = x / pad_width;
    let pad_y = 2 - (y - header) / pad_height;
    if pad_x >= 0 && pad_x < 3 && pad_y >= 0 && pad_y < 3 {
        Some(MouseEventTarget::Pad(PadId::from_keypad_int(pad_x + pad_y * 3 + 1)))
    } else {
        None
    }
}

} // verus!
