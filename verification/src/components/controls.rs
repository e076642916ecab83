//! Controls of the editing boards: moving or resizing the window with the arrow
//! keys, a horizontal slider, and the arrow marks shown on pads.
use vstd::prelude::*;
use crate::components::events::{Direction, KeyboardEvent, SetWindowPosCommand, UiEventResult};
use crate::input::keys::vkey::{VK_DARROW, VK_ENTER, VK_ESC, VK_LARROW, VK_RARROW, VK_UARROW, VK_X};
use crate::text::{concat3, owned};

verus! {

/// The virtual key of a key code: its lowest 16 bits.
pub open spec fn vk_of(key: u32) -> u16 {
    (key % 65536) as u16
}

/// The virtual key of a key code: its lowest 16 bits.
pub fn vk_code(key: u32) -> (r: u16)
    ensures
        r == vk_of(key),
{
    (key % 65536) as u16
}

/// What the arrow keys do to the window: move it or change its size.
#[derive(Debug, Clone, Copy, PartialEq, Eq, Structural)]
pub enum LayoutAction {
    Move,
    Resize,
}

impl Default for LayoutAction {
    fn default() -> (r: Self)
        ensures
            r == LayoutAction::Move,
    {
        LayoutAction::Move
    }
}

/// The other layout action.
pub open spec fn toggled(a: LayoutAction) -> LayoutAction {
    match a {
        LayoutAction::Move => LayoutAction::Resize,
        LayoutAction::Resize => LayoutAction::Move,
    }
}

/// The window command of an arrow in a layout action.
pub open spec fn layout_command(a: LayoutAction, d: Direction) -> UiEventResult {
    match a {
        LayoutAction::Move => UiEventResult::SetWindowPos(SetWindowPosCommand::Move(d)),
        LayoutAction::Resize => UiEventResult::SetWindowPos(SetWindowPosCommand::Size(d)),
    }
}

/// What a key does while the window layout is edited: the arrows move or resize
/// the window, `x` switches between moving and resizing, escape and enter leave.
pub open spec fn layout_key_result(a: LayoutAction, vk: u16) -> UiEventResult {
    if vk == VK_LARROW {
        layout_command(a, Direction::Left)
    } else if vk == VK_RARROW {
        layout_command(a, Direction::Right)
    } else if vk == VK_UARROW {
        layout_command(a, Direction::Up)
    } else if vk == VK_DARROW {
        layout_command(a, Direction::Down)
    } else if vk == VK_X {
        UiEventResult::RequiresRedraw
    } else if vk == VK_ESC || vk == VK_ENTER {
        UiEventResult::PopState
    } else {
        UiEventResult::NotHandled
    }
}

impl LayoutAction {
    /// The other layout action.
    pub fn toggle(&self) -> (r: Self)
        ensures
            r == toggled(*self),
    {
        match self {
            LayoutAction::Move => LayoutAction::Resize,
            LayoutAction::Resize => LayoutAction::Move,
        }
    }

    /// The name of the action: `Move` or `Resize`.
    pub fn as_str(&self) -> (r: &'static str)
        ensures
            r@ == match *self {
                LayoutAction::Move => "Move"@,
                LayoutAction::Resize => "Resize"@,
            },
    {
        match self {
            LayoutAction::Move => "Move",
            LayoutAction::Resize => "Resize",
        }
    }

    /// Handles a key while the window layout is edited; `x` switches the action.
    pub fn key_down(&mut self, key: u32) -> (r: UiEventResult)
        ensures
            r == layout_key_result(*old(self), vk_of(key)),
            *final(self) == if vk_of(key) == VK_X {
                toggled(*old(self))
            } else {
                *old(self)
            },
    {
        let vk = vk_code(key);
        let a = *self;
        if vk == VK_LARROW {
            layout_command_of(a, Direction::Left)
        } else if vk == VK_RARROW {
            layout_command_of(a, Direction::Right)
        } else if vk == VK_UARROW {
            layout_command_of(a, Direction::Up)
        } else if vk == VK_DARROW {
            layout_command_of(a, Direction::Down)
        } else if vk == VK_X {
            *self = self.toggle();
            UiEventResult::RequiresRedraw
        } else if vk == VK_ESC || vk == VK_ENTER {
            UiEventResult::PopState
        } else {
            UiEventResult::NotHandled
        }
    }
}

/// The window command of an arrow in a layout action.
fn layout_command_of(a: LayoutAction, d: Direction) -> (r: UiEventResult)
    ensures
        r == layout_command(a, d),
{
    match a {
        LayoutAction::Move => UiEventResult::SetWindowPos(SetWindowPosCommand::Move(d)),
        LayoutAction::Resize => UiEventResult::SetWindowPos(SetWindowPosCommand::Size(d)),
    }
}

/// Toggling the layout action twice gives it back.
pub proof fn law_toggle_twice(a: LayoutAction)
    ensures
        toggled(toggled(a)) == a,
        toggled(a) != a,
{
}

/// `v` kept between `min` and `max`: above `max` it is `max`, else below `min`
/// it is `min`.
pub open spec fn clamp_spec(v: int, min: int, max: int) -> int {
    if v > max {
        max
    } else if v < min {
        min
    } else {
        v
    }
}

/// A horizontal slider over whole numbers: the arrows left and right step its
/// value, ten steps at a time with shift, kept between its bounds.
pub struct HSlider {
    label: String,
    value: i32,
    min: i32,
    max: i32,
    step: i32,
}

/// The value after an arrow: `step` (or ten steps with shift) added for right,
/// taken away for left, then kept between the bounds.
pub open spec fn slid(value: int, min: int, max: int, step: int, right: bool, shift: bool) -> int {
    let inc = if shift {
        10 * step
    } else {
        step
    };
    clamp_spec(
        if right {
            value + inc
        } else {
            value - inc
        },
        min,
        max,
    )
}

impl HSlider {
    /// The slider's label.
    pub closed spec fn label_spec(&self) -> Seq<char> {
        self.label@
    }

    /// The slider's value.
    pub closed spec fn value_spec(&self) -> int {
        self.value as int
    }

    /// The slider's lower bound.
    pub closed spec fn min_spec(&self) -> int {
        self.min as int
    }

    /// The slider's upper bound.
    pub closed spec fn max_spec(&self) -> int {
        self.max as int
    }

    /// The slider's step.
    pub closed spec fn step_spec(&self) -> int {
        self.step as int
    }

    /// A slider with a label, a value, bounds and a step.
    pub fn new(label: String, value: i32, min: i32, max: i32, step: i32) -> (r: Self)
        ensures
            r.label_spec() == label@,
            r.value_spec() == value,
            r.min_spec() == min,
            r.max_spec() == max,
            r.step_spec() == step,
    {
        HSlider { label, value, min, max, step }
    }

    /// The slider's value.
    pub fn value(&self) -> (r: i32)
        ensures
            r == self.value_spec(),
    {
        self.value
    }

    /// The slider's label.
    pub fn label(&self) -> (r: &String)
        ensures
            r@ == self.label_spec(),
    {
        &self.label
    }

    /// Handles a key: the arrows left and right change the value and ask for a
    /// redraw; other keys are not handled.
    pub fn key_down(&mut self, event: KeyboardEvent) -> (r: UiEventResult)
        requires
            vk_of(event.key) == VK_LARROW || vk_of(event.key) == VK_RARROW ==> {
                let inc = if event.modifiers.shift {
                    10 * old(self).step_spec()
                } else {
                    old(self).step_spec()
                };
                &&& i32::MIN <= inc <= i32::MAX
                &&& i32::MIN <= old(self).step_spec() * 10 <= i32::MAX || !event.modifiers.shift
                &&& i32::MIN <= old(self).value_spec() + inc <= i32::MAX
                &&& i32::MIN <= old(self).value_spec() - inc <= i32::MAX
            },
        ensures
            final(self).label_spec() == old(self).label_spec(),
            final(self).min_spec() == old(self).min_spec(),
            final(self).max_spec() == old(self).max_spec(),
            final(self).step_spec() == old(self).step_spec(),
            if vk_of(event.key) == VK_LARROW || vk_of(event.key) == VK_RARROW {
                r == UiEventResult::RequiresRedraw && final(self).value_spec() == slid(
                    old(self).value_spec(),
                    old(self).min_spec(),
                    old(self).max_spec(),
                    old(self).step_spec(),
                    vk_of(event.key) == VK_RARROW,
                    event.modifiers.shift,
                )
            } else {
                r == UiEventResult::NotHandled && final(self).value_spec() == old(self).value_spec()
            },
    {
        let vk = vk_code(event.key);
        if vk == VK_LARROW || vk == VK_RARROW {
            let inc: i32 = if event.modifiers.shift {
                let mut inc: i32 = self.step;
                let mut k: i32 = 1;
                while k < 10
                    invariant
                        1 <= k <= 10,
                        inc == k * self.step,
                        i32::MIN <= self.step * 10 <= i32::MAX,
                    decreases 10 - k,
                {
                    assert(i32::MIN <= (k + 1) * self.step <= i32::MAX) by (nonlinear_arith)
                        requires
                            1 <= k < 10,
                            i32::MIN <= self.step * 10 <= i32::MAX,
                            i32::MIN <= self.step <= i32::MAX,
                    ;
                    assert((k + 1) * self.step == k * self.step + self.step) by (nonlinear_arith);
                    inc = inc + self.step;
                    k = k + 1;
                }
                inc
            } else {
                self.step
            };
            let new_val = if vk == VK_RARROW {
                self.value + inc
            } else {
                self.value - inc
            };
            if new_val > self.max {
                self.value = self.max;
            } else if new_val < self.min {
                self.value = self.min;
            } else {
                self.value = new_val;
            }
            UiEventResult::RequiresRedraw
        } else {
            UiEventResult::NotHandled
        }
    }
}

/// Arrow and key marks shown on pads.
#[derive(Debug, Clone, PartialEq, Eq)]
pub enum Tags {
    RightBlack,
    LeftBlack,
    UpBlack,
    DownBlack,
    RightWhite,
    LeftWhite,
    UpWhite,
    DownWhite,
    DownUp,
    LeftRight,
    LeftTextRight(String),
    EscEnter,
}

/// The text of a mark.
pub open spec fn tag_text(t: Tags) -> Seq<char> {
    match t {
        Tags::RightBlack => "▶"@,
        Tags::LeftBlack => "◀"@,
        Tags::UpBlack => "▲"@,
        Tags::DownBlack => "▼"@,
        Tags::RightWhite => "▷"@,
        Tags::LeftWhite => "◁"@,
        Tags::UpWhite => "△"@,
        Tags::DownWhite => "▽"@,
        Tags::DownUp => "▽△"@,
        Tags::LeftRight => "◁▷"@,
        Tags::LeftTextRight(text) => "◁ "@ + text@ + " ▷"@,
        Tags::EscEnter => "esc/enter"@,
    }
}

impl Tags {
    /// The text of the mark: an arrow, a pair of arrows, a text between arrows, or
    /// `esc/enter`.
    pub fn to_string(&self) -> (r: String)
        ensures
            r@ == tag_text(*self),
    {
        match self {
            Tags::RightBlack => owned("▶"),
            Tags::LeftBlack => owned("◀"),
            Tags::UpBlack => owned("▲"),
            Tags::DownBlack => owned("▼"),
            Tags::RightWhite => owned("▷"),
            Tags::LeftWhite => owned("◁"),
            Tags::UpWhite => owned("△"),
            Tags::DownWhite => owned("▽"),
            Tags::DownUp => owned("▽△"),
            Tags::LeftRight => owned("◁▷"),
            Tags::LeftTextRight(text) => concat3("◁ ", text.as_str(), " ▷"),
            Tags::EscEnter => owned("esc/enter"),
        }
    }
}

} // verus!
