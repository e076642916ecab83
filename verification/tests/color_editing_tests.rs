use hotkeys::components::color_editing::{
    same_scheme, system_color_of, ColorComponent, ColorEditor, ColorEditorAction, EditModeAction, EditModeState,
    SystemColor,
};
use hotkeys::components::events::KeyboardEvent;
use hotkeys::components::modes::EditMode;
use hotkeys::domain::data::{Board, ColorScheme};
use hotkeys::domain::resources::Resources;
use hotkeys::input::keys::ModifierState;
use hotkeys::model::data::Color;
use hotkeys::settings::persistence::SettingsData;
use hotkeys::settings::settings::Settings;

fn key(k: u32, shift: bool) -> KeyboardEvent {
    KeyboardEvent { key: k, modifiers: ModifierState { ctrl: false, shift, alt: false, super_key: false } }
}

#[test]
fn modes_pick_their_colors() {
    assert_eq!(system_color_of(EditMode::Lines), SystemColor::Lines);
    assert_eq!(system_color_of(EditMode::Palette(1)), SystemColor::PalleteG);
    let mut cs = ColorScheme::default();
    cs.background = "#102030".to_string();
    cs.palette = vec!["#010101".to_string()];
    assert_eq!(SystemColor::Background.to_color(&cs), Color { r: 0x10, g: 0x20, b: 0x30 });
    assert_eq!(SystemColor::PalleteR.to_color(&cs), Color { r: 1, g: 1, b: 1 });
    assert_eq!(SystemColor::PalleteG.to_color(&cs), Color { r: 0xdb, g: 0xdb, b: 0xec });
    SystemColor::Tag.set_color(&mut cs, &Color { r: 255, g: 0, b: 1 });
    assert_eq!(cs.tag_foreground, "#ff0001");
    SystemColor::PalleteB.set_color(&mut cs, &Color { r: 0, g: 0, b: 0 });
    assert_eq!(cs.palette, vec!["#010101".to_string()]);
}

#[test]
fn color_editor_slides_components() {
    let mut ed = ColorEditor::new(Color { r: 250, g: 5, b: 100 }, SystemColor::Background);
    assert_eq!(ed.key_down(key(0x27, true)), ColorEditorAction::Redraw);
    assert_eq!(ed.color.r, 255);
    assert_eq!(ed.key_down(key(0x28, false)), ColorEditorAction::Redraw);
    assert_eq!(ed.cur_component, ColorComponent::G);
    ed.key_down(key(0x25, true));
    assert_eq!(ed.color.g, 0);
    ed.key_down(key(0x26, false));
    ed.key_down(key(0x26, false));
    assert_eq!(ed.cur_component, ColorComponent::B);
    ed.key_down(key(0x25, false));
    assert_eq!(ed.color, Color { r: 255, g: 0, b: 99 });
    assert_eq!(ed.key_down(key(0x0D, false)), ColorEditorAction::Accept);
    assert_eq!(ed.key_down(key(0x1B, false)), ColorEditorAction::Cancel);
    assert_eq!(ed.key_down(key(0x45, false)), ColorEditorAction::OpenPicker);
    let edited = ed.edited_scheme(&ColorScheme::default());
    assert_eq!(edited.background, "#ff0063");
}

#[test]
fn mode_board_saves_into_the_settings() {
    let mut data = SettingsData::default();
    let mut b = Board::default();
    b.name = "home".to_string();
    data.boards = vec![b];
    let mut s = Settings::from_data(data, Resources::new(vec!["c".to_string()]));
    let mut st = EditModeState::new(ColorScheme::default());
    assert!(!st.is_dirty());
    let mut changed = ColorScheme::default();
    changed.background = "#000000".to_string();
    st.take_result(changed);
    assert!(st.is_dirty());
    assert_eq!(st.key_down(&mut s, 0x53), EditModeAction::Redraw);
    assert!(!st.is_dirty());
    assert_eq!(s.get_color_scheme("default").unwrap().background, "#000000");
    assert_eq!(st.key_down(&mut s, 0x0D), EditModeAction::OpenColor(SystemColor::Background));
    st.key_down(&mut s, 0x28);
    assert_eq!(st.mode, EditMode::Opacity);
    assert_eq!(st.key_down(&mut s, 0x0D), EditModeAction::OpenOpacity);
    assert_eq!(st.key_down(&mut s, 0x1B), EditModeAction::Pop);
    assert!(same_scheme(&ColorScheme::default(), &ColorScheme::default()));
}
