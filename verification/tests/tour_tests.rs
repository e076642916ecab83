use hotkeys::components::events::{KeyboardEvent, MouseEvent, MouseEventTarget, UiEvent, UiEventResult};
use hotkeys::components::tour::{TourState, TOUR_LAST_STEP};
use hotkeys::input::keys::ModifierState;
use hotkeys::model::data::PadId;

fn key(k: u32) -> UiEvent {
    UiEvent::KeyDown(KeyboardEvent { key: k, modifiers: ModifierState::default() })
}

fn click(p: PadId) -> UiEvent {
    UiEvent::RightMouseDown(MouseEvent { target: MouseEventTarget::Pad(p), modifiers: ModifierState::default() })
}

#[test]
fn tour_walks_through_all_steps() {
    let mut tour = TourState::new();
    assert_eq!(tour.step(), 0);
    assert_eq!(tour.max_step(), TOUR_LAST_STEP);
    assert_eq!(tour.handle_ui_event(key(0x61)), UiEventResult::RequiresRedraw);
    assert_eq!(tour.step(), 1);
    assert_eq!(tour.handle_ui_event(key(0x32)), UiEventResult::RequiresRedraw);
    assert_eq!(tour.step(), 2);
    assert_eq!(tour.handle_ui_event(click(PadId::Four)), UiEventResult::NotHandled);
    assert_eq!(tour.step(), 2);
    assert_eq!(tour.handle_ui_event(click(PadId::Three)), UiEventResult::RequiresRedraw);
    assert_eq!(tour.step(), 3);
    assert_eq!(tour.handle_ui_event(key(0x27)), UiEventResult::RequiresRedraw);
    assert_eq!(tour.handle_ui_event(key(0x28)), UiEventResult::RequiresRedraw);
    assert_eq!(tour.handle_ui_event(key(0x43)), UiEventResult::RequiresRedraw);
    assert_eq!(tour.handle_ui_event(key(0x4E)), UiEventResult::RequiresRedraw);
    assert_eq!(tour.step(), 7);
    // the last step waits for no key
    assert_eq!(tour.handle_ui_event(key(0x4E)), UiEventResult::NotHandled);
    assert_eq!(tour.step(), 7);
}

#[test]
fn tour_wrong_key_reset_and_enter() {
    let mut tour = TourState::new();
    assert_eq!(tour.handle_ui_event(key(0x32)), UiEventResult::NotHandled);
    assert_eq!(tour.step(), 0);
    assert_eq!(tour.handle_ui_event(key(0x0D)), UiEventResult::Handled);
    assert_eq!(tour.step(), 0);
    tour.handle_ui_event(key(0x61));
    tour.handle_ui_event(key(0x32));
    assert_eq!(tour.step(), 2);
    assert_eq!(tour.handle_ui_event(key(0x52)), UiEventResult::RequiresRedraw);
    assert_eq!(tour.step(), 0);
    let up = UiEvent::KeyUp(KeyboardEvent { key: 0x61, modifiers: ModifierState::default() });
    assert_eq!(tour.handle_ui_event(up), UiEventResult::NotHandled);
    assert_eq!(tour.step(), 0);
}
