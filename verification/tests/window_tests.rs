use hotkeys::actions::{paste_script, plan_action, ActionPlan, ActionResult};
use hotkeys::components::events::{ChildWindowRequest, Direction, MouseEventTarget, SetWindowPosCommand, UiEventResult};
use hotkeys::components::window::{
    feedback_tick, hit_test, keydown_action, keyup_action, mouse_action, press_key, release_key, timeout_tick, Rect,
    TimerAction, WindowAction,
};
use hotkeys::domain::integration::{ActionParams, ActionType, Param};
use hotkeys::input::keys::ModifierState;
use hotkeys::input::script::{CharKey, CharKeys};
use hotkeys::input::steps::{InputStep, KeyInput};
use hotkeys::model::data::PadId;

fn none() -> ModifierState {
    ModifierState { ctrl: false, shift: false, alt: false, super_key: false }
}

#[test]
fn modifier_keys_change_the_state_once() {
    let p = press_key(none(), 0xA2);
    assert!(p.is_modifier && p.changed && !p.ignored);
    assert!(p.state.ctrl);
    let again = press_key(p.state, 0x11);
    assert!(again.is_modifier && again.ignored && !again.changed);
    let letter = press_key(p.state, 0x41);
    assert!(!letter.is_modifier && !letter.ignored);
    let (after, is_mod) = release_key(p.state, 0xA3);
    assert!(is_mod);
    assert_eq!(after, none());
}

#[test]
fn keys_fall_back_to_the_keypad_or_closing() {
    assert_eq!(keydown_action(Some(UiEventResult::Handled), false, 0x61), WindowAction::Ignore);
    assert_eq!(keydown_action(Some(UiEventResult::RequiresRedraw), false, 0x61), WindowAction::Redraw);
    assert_eq!(
        keydown_action(Some(UiEventResult::RequestChildWindow(ChildWindowRequest::ColorEditor)), false, 0),
        WindowAction::RequestChild(ChildWindowRequest::ColorEditor)
    );
    assert_eq!(keydown_action(Some(UiEventResult::NotHandled), false, 0x65), WindowAction::SelectPad(PadId::Five));
    assert_eq!(keydown_action(None, false, 0x69), WindowAction::SelectPad(PadId::Nine));
    assert_eq!(keydown_action(None, false, 0x60), WindowAction::Finish);
    assert_eq!(keydown_action(Some(UiEventResult::NotHandled), false, 0x41), WindowAction::Finish);
    assert_eq!(keydown_action(None, false, 0x1B), WindowAction::Finish);
    assert_eq!(keydown_action(None, true, 0x1B), WindowAction::Ignore);
    assert_eq!(keydown_action(Some(UiEventResult::PopState), false, 0x62), WindowAction::SelectPad(PadId::Two));
    assert_eq!(keyup_action(None, true), WindowAction::Redraw);
    assert_eq!(keyup_action(Some(UiEventResult::Handled), true), WindowAction::Ignore);
    assert_eq!(keyup_action(None, false), WindowAction::Ignore);
}

#[test]
fn right_clicks_run_pads() {
    let pad = MouseEventTarget::Pad(PadId::Three);
    assert_eq!(mouse_action(UiEventResult::NotHandled, pad), WindowAction::SelectPad(PadId::Three));
    assert_eq!(mouse_action(UiEventResult::NotHandled, MouseEventTarget::Header), WindowAction::Ignore);
    assert_eq!(mouse_action(UiEventResult::CloseWindow, pad), WindowAction::Unexpected);
}

#[test]
fn timers_count_down_and_run() {
    assert_eq!(timeout_tick(3), (2, TimerAction::Redraw));
    assert_eq!(timeout_tick(1), (0, TimerAction::StopAndFinish));
    assert_eq!(timeout_tick(0), (0, TimerAction::Nothing));
    assert_eq!(feedback_tick(Some(PadId::One)), TimerAction::StopAndRun(PadId::One));
    assert_eq!(feedback_tick(None), TimerAction::Stop);
}

#[test]
fn windows_move_and_resize_by_ten() {
    let r = Rect { left: 100, top: 50, right: 400, bottom: 350 };
    assert_eq!(r.moved(SetWindowPosCommand::Move(Direction::Left)), Rect { left: 90, top: 50, right: 390, bottom: 350 });
    assert_eq!(r.moved(SetWindowPosCommand::Move(Direction::Down)), Rect { left: 100, top: 60, right: 400, bottom: 360 });
    assert_eq!(r.moved(SetWindowPosCommand::Size(Direction::Right)), Rect { left: 100, top: 50, right: 410, bottom: 350 });
    assert_eq!(r.moved(SetWindowPosCommand::Size(Direction::Up)), Rect { left: 100, top: 50, right: 400, bottom: 340 });
}

#[test]
fn points_fall_on_header_and_pads() {
    assert_eq!(hit_test(300, 400, 10, 10), Some(MouseEventTarget::Header));
    assert_eq!(hit_test(300, 400, 10, 390), Some(MouseEventTarget::Pad(PadId::One)));
    assert_eq!(hit_test(300, 400, 150, 200), Some(MouseEventTarget::Pad(PadId::Five)));
    assert_eq!(hit_test(300, 400, 290, 50), Some(MouseEventTarget::Pad(PadId::Nine)));
    assert_eq!(hit_test(300, 400, 301, 401), None);
    assert_eq!(hit_test(300, 400, 350, 100), None);
}

fn layout() -> CharKeys {
    CharKeys::new(vec![CharKey { ch: 'v', vk_code: 0x56, modifiers: none() }])
}

#[test]
fn actions_are_planned() {
    match plan_action(&ActionType::Pause(30), &layout()) {
        ActionPlan::Play(s) => assert_eq!(s.steps.len(), 1),
        other => panic!("unexpected {:?}", other),
    }
    match plan_action(&ActionType::PasteEnter("hi".to_string()), &layout()) {
        ActionPlan::Paste { text, enter } => {
            assert_eq!(text, "hi");
            assert!(enter);
        }
        other => panic!("unexpected {:?}", other),
    }
    match plan_action(&ActionType::OpenUrl("https://example.org".to_string()), &layout()) {
        ActionPlan::OpenUrl(u) => assert_eq!(u, "https://example.org"),
        other => panic!("unexpected {:?}", other),
    }
    let custom = ActionParams { action_type: "x".to_string(), params: vec![Param::new("a".to_string(), "1".to_string())] };
    match plan_action(&ActionType::Custom(custom), &layout()) {
        ActionPlan::Custom(p) => assert_eq!(p.action_type, "x"),
        other => panic!("unexpected {:?}", other),
    }
    let s = paste_script(true, &layout());
    assert_eq!(s.steps.len(), 6);
    assert_eq!(s.steps[0], InputStep::Key(KeyInput { vk_code: 0x11, key_down: true }));
    assert_eq!(s.steps[1], InputStep::Key(KeyInput { vk_code: 0x56, key_down: true }));
    assert_eq!(s.steps[4], InputStep::Key(KeyInput { vk_code: 0x0D, key_down: true }));
    assert_eq!(ActionResult::Error("e".to_string()), ActionResult::Error("e".to_string()));
}

#[test]
fn hit_test_header_of_a_narrow_window() {
    assert_eq!(hit_test(0, 400, 10, 10), Some(MouseEventTarget::Header));
    assert_eq!(hit_test(1, 400, 10, 500), None);
}
