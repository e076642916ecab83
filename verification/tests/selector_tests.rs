use hotkeys::components::events::{KeyboardEvent, UiEvent, UiEventResult};
use hotkeys::components::selectors::{Selector, SelectorKind};
use hotkeys::domain::data::{Board, ColorScheme};
use hotkeys::domain::resources::Resources;
use hotkeys::input::keys::ModifierState;
use hotkeys::settings::persistence::SettingsData;
use hotkeys::settings::settings::Settings;

fn key(k: u32) -> UiEvent {
    UiEvent::KeyDown(KeyboardEvent { key: k, modifiers: ModifierState::default() })
}

fn scheme(name: &str) -> ColorScheme {
    let mut c = ColorScheme::default();
    c.name = name.to_string();
    c
}

fn settings() -> Settings {
    let mut data = SettingsData::default();
    let mut b = Board::default();
    b.name = "code".to_string();
    data.boards = vec![b];
    data.color_schemes = vec![scheme("default"), scheme("dark"), scheme("light")];
    Settings::from_data(data, Resources::new(vec!["config".to_string()]))
}

#[test]
fn selector_walks_and_keeps_the_choice() {
    let mut s = settings();
    let mut sel = Selector::new(SelectorKind::ColorScheme, "code".to_string());
    assert_eq!(sel.current(&s), "default");
    assert_eq!(sel.handle_ui_event(&mut s, key(0x27)), UiEventResult::RequiresRedraw);
    assert_eq!(sel.current(&s), "dark");
    assert_eq!(sel.handle_ui_event(&mut s, key(0x25)), UiEventResult::RequiresRedraw);
    assert_eq!(sel.handle_ui_event(&mut s, key(0x25)), UiEventResult::RequiresRedraw);
    assert_eq!(sel.current(&s), "light");
    assert_eq!(sel.handle_ui_event(&mut s, key(0x41)), UiEventResult::NotHandled);
    assert_eq!(sel.handle_ui_event(&mut s, key(0x0D)), UiEventResult::PopState);
    assert_eq!(s.get_board("code").unwrap().color_scheme, Some("light".to_string()));
}

#[test]
fn selector_enter_without_moving_clears_the_choice() {
    let mut s = settings();
    let mut b = s.get_board("code").unwrap();
    b.color_scheme = Some("dark".to_string());
    s.set_board(b).unwrap();
    let mut sel = Selector::new(SelectorKind::ColorScheme, "code".to_string());
    assert_eq!(sel.current(&s), "dark");
    assert_eq!(sel.handle_ui_event(&mut s, key(0x1B)), UiEventResult::PopState);
    assert_eq!(s.get_board("code").unwrap().color_scheme, Some("dark".to_string()));
    assert_eq!(sel.handle_ui_event(&mut s, key(0x0D)), UiEventResult::PopState);
    assert_eq!(s.get_board("code").unwrap().color_scheme, None);
}
