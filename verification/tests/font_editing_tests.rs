use hotkeys::components::events::{ChildWindowRequest, KeyboardEvent, UiEvent, UiEventResult};
use hotkeys::components::font_editing::{FontEditState, FontMode};
use hotkeys::domain::data::TextStyle;
use hotkeys::domain::resources::Resources;
use hotkeys::input::keys::ModifierState;
use hotkeys::settings::persistence::SettingsData;
use hotkeys::settings::settings::Settings;

fn key(k: u32) -> UiEvent {
    UiEvent::KeyDown(KeyboardEvent { key: k, modifiers: ModifierState::default() })
}

#[test]
fn font_modes_walk_both_ways() {
    let order = [
        FontMode::Header,
        FontMode::PadHeader,
        FontMode::PadText,
        FontMode::Tag,
        FontMode::PadId,
        FontMode::Palette(0),
        FontMode::Palette(1),
        FontMode::Palette(2),
    ];
    for i in 0..order.len() {
        let next = order[(i + 1) % order.len()];
        assert_eq!(order[i].next(), next);
        assert_eq!(next.prev(), order[i]);
    }
}

#[test]
fn palette_font_grows_the_palette() {
    let mut ts = TextStyle::default();
    ts.palette = vec![];
    assert_eq!(FontMode::Palette(2).get_font(&ts), "");
    FontMode::Palette(2).set_font(&mut ts, "Arial 9".to_string());
    assert_eq!(ts.palette, vec!["".to_string(), "".to_string(), "Arial 9".to_string()]);
    assert_eq!(FontMode::Palette(2).get_font(&ts), "Arial 9");
    FontMode::Tag.set_font(&mut ts, "Consolas 8".to_string());
    assert_eq!(ts.tag_font, "Consolas 8");
    assert_eq!(FontMode::Tag.get_font(&ts), "Consolas 8");
    assert_eq!(FontMode::Palette(0).get_font(&ts), "");
}

#[test]
fn font_editor_saves_and_leaves() {
    let mut data = SettingsData::default();
    data.text_styles = vec![TextStyle::default()];
    let mut s = Settings::from_data(data, Resources::new(vec!["config".to_string()]));
    let mut ed = FontEditState::new(TextStyle::default());
    assert_eq!(ed.mode, FontMode::PadText);
    assert!(!ed.is_dirty());
    assert_eq!(ed.handle_ui_event(&mut s, key(0x28)), UiEventResult::RequiresRedraw);
    assert_eq!(ed.mode, FontMode::Tag);
    assert_eq!(ed.handle_ui_event(&mut s, key(0x26)), UiEventResult::RequiresRedraw);
    assert_eq!(ed.mode, FontMode::PadText);
    assert_eq!(
        ed.handle_ui_event(&mut s, key(0x0D)),
        UiEventResult::RequestChildWindow(ChildWindowRequest::FontSelector)
    );
    assert_eq!(ed.font_chosen(Some("Arial 20".to_string())), UiEventResult::RequiresRedraw);
    assert!(ed.is_dirty());
    assert_eq!(ed.font_chosen(None), UiEventResult::NotHandled);
    assert_eq!(ed.handle_ui_event(&mut s, key(0x53)), UiEventResult::RequiresRedraw);
    assert!(!ed.is_dirty());
    assert_eq!(s.get_text_style("default").unwrap().pad_text_font, "Arial 20");
    assert_eq!(ed.handle_ui_event(&mut s, key(0x1B)), UiEventResult::PopState);
    assert_eq!(ed.handle_ui_event(&mut s, key(0x41)), UiEventResult::NotHandled);
}
