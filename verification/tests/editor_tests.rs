use hotkeys::components::editors::{ColorSchemeEditor, EditorAction, TextStyleEditor};
use hotkeys::domain::data::{Board, ColorScheme, TextStyle};
use hotkeys::domain::resources::Resources;
use hotkeys::settings::persistence::SettingsData;
use hotkeys::settings::settings::Settings;

fn settings() -> Settings {
    let mut data = SettingsData::default();
    let mut b = Board::default();
    b.name = "home".to_string();
    data.boards = vec![b];
    Settings::from_data(data, Resources::new(vec!["config".to_string()]))
}

#[test]
fn scheme_editor_copies_renames_and_deletes() {
    let mut s = settings();
    let mut ed = ColorSchemeEditor::new(None);
    assert_eq!(ed.title(), "default");
    assert_eq!(ed.key_down(&mut s, 0x43), EditorAction::Redraw);
    assert_eq!(ed.title(), "default Copy");
    assert_eq!(s.color_schemes(), vec!["default".to_string(), "default Copy".to_string()]);
    assert_eq!(ed.key_down(&mut s, 0x27), EditorAction::Redraw);
    assert_eq!(ed.title(), "default");
    assert_eq!(ed.key_down(&mut s, 0x25), EditorAction::Redraw);
    assert_eq!(ed.title(), "default Copy");
    assert_eq!(ed.key_down(&mut s, 0x44), EditorAction::AskDelete("Delete\n\"default Copy\"?".to_string()));
    assert_eq!(ed.key_down(&mut s, 0x71), EditorAction::EditTitle("default Copy".to_string()));
    assert_eq!(ed.rename(&mut s, "  night "), Ok(()));
    assert_eq!(ed.title(), "night");
    assert!(s.get_color_scheme("night").is_some());
    assert_eq!(
        ed.rename(&mut s, "default"),
        Err("ColorScheme 'default' already exists".to_string())
    );
    ed.confirm_delete(&mut s, true);
    assert_eq!(ed.title(), "default");
    assert_eq!(s.color_schemes(), vec!["default".to_string()]);
    assert_eq!(ed.key_down(&mut s, 0x0D), EditorAction::OpenEditor);
    assert_eq!(ed.key_down(&mut s, 0x1B), EditorAction::Pop);
    assert_eq!(ed.key_down(&mut s, 0x41), EditorAction::NotHandled);
}

#[test]
fn missing_scheme_is_not_deleted_or_renamed() {
    let mut s = settings();
    let mut ed = ColorSchemeEditor::new(Some("gone".to_string()));
    assert_eq!(ed.key_down(&mut s, 0x44), EditorAction::NotHandled);
    assert_eq!(ed.key_down(&mut s, 0x52), EditorAction::NotHandled);
    assert_eq!(ed.key_down(&mut s, 0x27), EditorAction::Redraw);
    assert_eq!(ed.title(), "gone");
    assert_eq!(ed.rename(&mut s, "x"), Ok(()));
    assert_eq!(ed.title(), "gone");
    let _ = ColorScheme::default();
}

#[test]
fn style_editor_deletes_directly() {
    let mut s = settings();
    let mut t = TextStyle::default();
    t.name = "big".to_string();
    s.add_text_style(t).unwrap();
    let mut ed = TextStyleEditor::new(Some("big".to_string()));
    assert_eq!(ed.key_down(&mut s, 0x2E), EditorAction::Redraw);
    assert_eq!(ed.title(), "default");
    assert_eq!(s.text_styles(), vec!["default".to_string()]);
    assert_eq!(ed.key_down(&mut s, 0x43), EditorAction::Redraw);
    assert_eq!(ed.title(), "default Copy");
}
