use hotkeys::components::pad_editor::{PadEditor, PadEditorAction, PadEditorMode};
use hotkeys::domain::data::Pad;
use hotkeys::domain::integration::ActionType;
use hotkeys::input::keys::ModifierState;

fn mods(ctrl: bool, shift: bool) -> ModifierState {
    ModifierState { ctrl, shift, alt: false, super_key: false }
}

#[test]
fn pad_editor_edits_text_and_header() {
    let mut pad = Pad::default();
    pad.text = Some("ab".to_string());
    let mut ed = PadEditor::new(pad);
    assert_eq!(ed.mode, PadEditorMode::Text);
    assert_eq!(ed.key_down(0x43, mods(false, false), None, Some("c".to_string())), PadEditorAction::Redraw);
    assert_eq!(ed.pad.text, Some("abc".to_string()));
    ed.key_down(0x0D, mods(false, true), None, None);
    assert_eq!(ed.pad.text, Some("abc\n".to_string()));
    ed.key_down(0x56, mods(true, false), Some("XY".to_string()), None);
    assert_eq!(ed.pad.text, Some("abc\nXY".to_string()));
    ed.key_down(0x08, mods(true, false), None, None);
    assert_eq!(ed.pad.text, None);
    assert_eq!(ed.key_down(0x26, mods(false, false), None, None), PadEditorAction::Redraw);
    assert_eq!(ed.mode, PadEditorMode::Header);
    ed.key_down(0x20, mods(false, false), None, None);
    assert_eq!(ed.pad.header, Some(" ".to_string()));
    assert_eq!(ed.key_down(0x0D, mods(false, false), None, None), PadEditorAction::Save);
    assert_eq!(ed.key_down(0x1B, mods(false, false), None, None), PadEditorAction::Pop);
}

#[test]
fn pad_editor_action_keys() {
    let mut pad = Pad::default();
    pad.actions = vec![ActionType::Text("x".to_string())];
    let mut ed = PadEditor::new(pad);
    ed.key_down(0x28, mods(false, false), None, None);
    assert_eq!(ed.mode, PadEditorMode::Action);
    assert_eq!(ed.key_down(0x53, mods(false, false), None, None), PadEditorAction::EditShortcut);
    assert_eq!(ed.key_down(0x27, mods(false, false), None, None), PadEditorAction::EditShortcut);
    assert_eq!(ed.key_down(0x45, mods(false, false), None, None), PadEditorAction::RequestPadEditor);
    assert_eq!(ed.key_down(0x41, mods(false, false), None, None), PadEditorAction::NotHandled);
    assert_eq!(ed.pad.actions.len(), 1);
    assert_eq!(ed.key_down(0x43, mods(false, false), None, None), PadEditorAction::Redraw);
    assert_eq!(ed.pad.actions.len(), 0);
    assert_eq!(PadEditorMode::Action.next(), PadEditorMode::Header);
    assert_eq!(PadEditorMode::Header.previous(), PadEditorMode::Action);
}

#[test]
fn enter_before_the_pad_is_taken_up_is_not_handled() {
    let mut ed = PadEditor::new(Pad::default());
    assert_eq!(ed.key_down(0x0D, mods(false, false), None, None), PadEditorAction::NotHandled);
    let shown = ed.get_pad();
    assert_eq!(shown.text, None);
    assert_eq!(ed.key_down(0x0D, mods(false, false), None, None), PadEditorAction::Save);
}
