use hotkeys::components::controls::{HSlider, LayoutAction, Tags};
use hotkeys::components::events::{
    Direction, KeyboardEvent, MouseEvent, MouseEventTarget, SetWindowPosCommand, UiEvent, UiEventResult,
};
use hotkeys::components::keypad::map_pad_id;
use hotkeys::components::modes::EditMode;
use hotkeys::input::api::{inputs_to_text, KeyboardInput, StepAction};
use hotkeys::input::keys::ModifierState;
use hotkeys::input::steps::{InputStep, KeyInput, KeyInputs, NoInput};
use hotkeys::model::data::PadId;

fn mods(shift: bool) -> ModifierState {
    ModifierState { ctrl: false, shift, alt: false, super_key: false }
}

#[test]
fn keys_select_pads_in_either_order() {
    assert_eq!(map_pad_id(0x61, false), Some(PadId::One));
    assert_eq!(map_pad_id(0x31, false), Some(PadId::One));
    assert_eq!(map_pad_id(0x37, true), Some(PadId::One));
    assert_eq!(map_pad_id(0x31, true), Some(PadId::Seven));
    assert_eq!(map_pad_id(0x35, true), Some(PadId::Five));
    assert_eq!(map_pad_id(0x69, true), Some(PadId::Nine));
    assert_eq!(map_pad_id(0x30, false), None);
    assert_eq!(map_pad_id(0x41, true), None);
}

#[test]
fn layout_keys_move_resize_and_leave() {
    let mut a = LayoutAction::default();
    assert_eq!(a.as_str(), "Move");
    assert_eq!(a.key_down(0x25), UiEventResult::SetWindowPos(SetWindowPosCommand::Move(Direction::Left)));
    assert_eq!(a.key_down(0x58), UiEventResult::RequiresRedraw);
    assert_eq!(a, LayoutAction::Resize);
    assert_eq!(a.key_down(0x28), UiEventResult::SetWindowPos(SetWindowPosCommand::Size(Direction::Down)));
    assert_eq!(a.key_down(0x1B), UiEventResult::PopState);
    assert_eq!(a.key_down(0x0D), UiEventResult::PopState);
    assert_eq!(a.key_down(0x41), UiEventResult::NotHandled);
    assert_eq!(a.toggle().toggle(), a);
    assert_eq!(a.toggle().as_str(), "Move");
}

#[test]
fn slider_steps_and_clamps() {
    let mut s = HSlider::new("R".to_string(), 250, 0, 255, 1);
    let right = KeyboardEvent { key: 0x27, modifiers: mods(false) };
    let left_shift = KeyboardEvent { key: 0x25, modifiers: mods(true) };
    assert_eq!(s.key_down(right), UiEventResult::RequiresRedraw);
    assert_eq!(s.value(), 251);
    assert_eq!(s.key_down(KeyboardEvent { key: 0x27, modifiers: mods(true) }), UiEventResult::RequiresRedraw);
    assert_eq!(s.value(), 255);
    assert_eq!(s.key_down(left_shift), UiEventResult::RequiresRedraw);
    assert_eq!(s.value(), 245);
    let mut low = HSlider::new("G".to_string(), 3, 0, 255, 1);
    low.key_down(left_shift);
    assert_eq!(low.value(), 0);
    assert_eq!(low.key_down(KeyboardEvent { key: 0x26, modifiers: mods(false) }), UiEventResult::NotHandled);
    assert_eq!(low.label(), "G");
}

#[test]
fn tag_marks_have_their_texts() {
    assert_eq!(Tags::RightBlack.to_string(), "▶");
    assert_eq!(Tags::LeftRight.to_string(), "◁▷");
    assert_eq!(Tags::LeftTextRight("x".to_string()).to_string(), "◁ x ▷");
    assert_eq!(Tags::EscEnter.to_string(), "esc/enter");
}

#[test]
fn edit_modes_wrap_around() {
    assert_eq!(EditMode::Background.previous(), EditMode::Palette(2));
    assert_eq!(EditMode::Palette(2).next(), EditMode::Background);
    assert_eq!(EditMode::Tag.next(), EditMode::Palette(0));
    for m in EditMode::all() {
        assert_eq!(m.next().previous(), m);
        assert_eq!(m.previous().next(), m);
    }
    assert_eq!(EditMode::Palette(1).index(), 6);
}

#[test]
fn events_carry_their_modifiers() {
    let m = mods(true);
    assert_eq!(UiEvent::KeyUp(KeyboardEvent { key: 1, modifiers: m }).modifiers(), m);
    assert_eq!(
        UiEvent::RightMouseDown(MouseEvent { target: MouseEventTarget::Pad(PadId::Two), modifiers: m }).modifiers(),
        m
    );
}

#[test]
fn steps_become_actions() {
    let k = KeyInput { vk_code: 0x41, key_down: true };
    assert_eq!(
        InputStep::Key(k).action(),
        StepAction::Send(vec![KeyboardInput { vk_code: 0x41, key_down: true }])
    );
    let ks = KeyInputs { inputs: vec![k, KeyInput { vk_code: 0x41, key_down: false }] };
    match InputStep::Keys(ks).action() {
        StepAction::Send(v) => assert_eq!(v.len(), 2),
        other => panic!("unexpected {:?}", other),
    }
    assert_eq!(InputStep::Pause(NoInput { pause: 5 }).action(), StepAction::Sleep(5));
    assert_eq!(InputStep::Pause(NoInput { pause: 0 }).action(), StepAction::Nothing);
}

#[test]
fn key_events_are_written_for_the_log() {
    let down = KeyboardInput { vk_code: 0x41, key_down: true };
    let up = KeyboardInput { vk_code: 0x1b, key_down: false };
    assert_eq!(down.to_text(), "{0x41,down}");
    assert_eq!(KeyboardInput { vk_code: 0, key_down: false }.to_text(), "{0x0,up}");
    assert_eq!(inputs_to_text(&vec![down, up]), "[{0x41,down},{0x1b,up}]");
    assert_eq!(inputs_to_text(&vec![]), "[]");
}
