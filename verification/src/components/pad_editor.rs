//! The pad editor: which part of a pad the keys edit (its header, its text or its
//! actions), and what each key does to the pad being edited.
use vstd::prelude::*;
use crate::components::controls::{vk_code, vk_of};
use crate::domain::data::{actions_view, Pad, PadV};
use crate::domain::integration::{ActionType, ActionView};
use crate::text::{str_eq, trim, trim_str};
use crate::domain::integration::opt_view;
use crate::input::capture::{text_after_key, TextCapture};
use crate::input::keys::vkey::{VK_C, VK_DARROW, VK_E, VK_ENTER, VK_ESC, VK_RARROW, VK_S, VK_UARROW};
use crate::input::keys::ModifierState;

verus! {

/// The part of the pad that the keys edit.
#[derive(Debug, Clone, Copy, PartialEq, Eq, Structural)]
pub enum PadEditorMode {
    Header,
    Text,
    Action,
}

impl Default for PadEditorMode {
    fn default() -> (r: Self)
        ensures
            r == PadEditorMode::Text,
    {
        PadEditorMode::Text
    }
}

/// The part after this one, the header after the actions.
pub open spec fn mode_after(m: PadEditorMode) -> PadEditorMode {
    match m {
        PadEditorMode::Header => PadEditorMode::Text,
        PadEditorMode::Text => PadEditorMode::Action,
        PadEditorMode::Action => PadEditorMode::Header,
    }
}

/// The part before this one, the actions before the header.
pub open spec fn mode_before(m: PadEditorMode) -> PadEditorMode {
    match m {
        PadEditorMode::Header => PadEditorMode::Action,
        PadEditorMode::Text => PadEditorMode::Header,
        PadEditorMode::Action => PadEditorMode::Text,
    }
}

impl PadEditorMode {
    /// The part after this one.
    pub fn next(&self) -> (r: Self)
        ensures
            r == mode_after(*self),
    {
        match self {
            PadEditorMode::Header => PadEditorMode::Text,
            PadEditorMode::Text => PadEditorMode::Action,
            PadEditorMode::Action => PadEditorMode::Header,
        }
    }

    /// The part before this one.
    pub fn previous(&self) -> (r: Self)
        ensures
            r == mode_before(*self),
    {
        match self {
            PadEditorMode::Header => PadEditorMode::Action,
            PadEditorMode::Text => PadEditorMode::Header,
            PadEditorMode::Action => PadEditorMode::Text,
        }
    }
}

/// Stepping to the next part and back, or back and then on, gives the part again.
pub proof fn law_pad_mode_inverse(m: PadEditorMode)
    ensures
        mode_before(mode_after(m)) == m,
        mode_after(mode_before(m)) == m,
        mode_after(mode_after(mode_after(m))) == m,
{
}

/// What the pad editor asks for after a key.
#[derive(Debug, Clone, Copy, PartialEq, Eq, Structural)]
pub enum PadEditorAction {
    NotHandled,
    Redraw,
    /// Store the edited pad in the board's pad set and leave.
    Save,
    /// Leave without storing.
    Pop,
    /// Open the shortcut editor for the pad's action.
    EditShortcut,
    /// Open the full pad editor window.
    RequestPadEditor,
}

/// A text edited by one key: the text field as a string, empty for none, and
/// none again when the key leaves it empty.
pub open spec fn field_after(
    field: Option<Seq<char>>,
    vk: u16,
    m: ModifierState,
    clipboard: Option<Seq<char>>,
    typed: Option<Seq<char>>,
) -> Option<Seq<char>> {
    let t = text_after_key(
        match field {
            Some(f) => f,
            None => Seq::empty(),
        },
        true,
        vk,
        m,
        clipboard,
        typed,
    );
    if t.len() > 0 {
        Some(t)
    } else {
        None
    }
}

/// The clipboard text that a paste uses: none when it is empty.
pub open spec fn paste_source(clipboard: Option<String>) -> Option<Seq<char>> {
    match clipboard {
        Some(c) => if c@.len() > 0 {
            Some(c@)
        } else {
            None
        },
        None => None,
    }
}

/// The pad editor: the pad being edited, the part the keys edit, and whether the
/// pad was taken up for editing yet (by showing it or by a key that edits it).
pub struct PadEditor {
    pub pad: Pad,
    pub mode: PadEditorMode,
    pub loaded: bool,
}

impl PadEditor {
    /// An editor of `pad`, starting on its text; the pad is not taken up yet.
    pub fn new(pad: Pad) -> (r: Self)
        ensures
            r.pad == pad,
            r.mode == PadEditorMode::Text,
            !r.loaded,
    {
        Self { pad, mode: PadEditorMode::Text, loaded: false }
    }

    /// The pad being edited, as shown; it is taken up for editing from now on.
    pub fn get_pad(&mut self) -> (r: Pad)
        ensures
            r@ == old(self).pad@,
            final(self).pad == old(self).pad,
            final(self).mode == old(self).mode,
            final(self).loaded,
    {
        self.loaded = true;
        self.pad.clone()
    }

    /// Edits one field with a key, as a text capture that allows line breaks.
    fn edit_field(
        field: &Option<String>,
        vk: u16,
        modifiers: ModifierState,
        clipboard: Option<String>,
        typed: Option<String>,
    ) -> (r: Option<String>)
        ensures
            opt_view(r) == field_after(opt_view(*field), vk, modifiers, paste_source(clipboard), opt_view(typed)),
    {
        let start = crate::domain::integration::clone_opt(field);
        let mut capture = TextCapture::new(start, true);
        capture.on_keydown(vk, modifiers, clipboard, typed);
        capture.text()
    }

    /// Handles a key: up and down change the part edited, escape leaves, enter
    /// without modifiers stores the pad once it was taken up (and is not handled
    /// before). Any other key takes the pad up. On the actions, `s` or right opens the
    /// shortcut editor, `e` the pad editor window, and `c` clears the pad; on the
    /// header or the text, the key edits that text (`clipboard` is the clipboard's
    /// text, `typed` what the key types).
    pub fn key_down(
        &mut self,
        key: u32,
        modifiers: ModifierState,
        clipboard: Option<String>,
        typed: Option<String>,
    ) -> (r: PadEditorAction)
        ensures
            ({
                let vk = vk_of(key);
                if vk == VK_UARROW || vk == VK_DARROW {
                    r == PadEditorAction::Redraw && final(self).pad == old(self).pad
                        && final(self).loaded == old(self).loaded && final(self).mode == if vk == VK_UARROW {
                        mode_before(old(self).mode)
                    } else {
                        mode_after(old(self).mode)
                    }
                } else if vk == VK_ESC {
                    r == PadEditorAction::Pop && *final(self) == *old(self)
                } else if vk == VK_ENTER && modifiers == ModifierState::none() {
                    r == (if old(self).loaded {
                        PadEditorAction::Save
                    } else {
                        PadEditorAction::NotHandled
                    }) && *final(self) == *old(self)
                } else if old(self).mode == PadEditorMode::Action {
                    final(self).mode == old(self).mode && if vk == VK_S || vk == VK_RARROW {
                        r == PadEditorAction::EditShortcut && final(self).pad == old(self).pad
                            && final(self).loaded == old(self).loaded
                    } else if vk == VK_E {
                        r == PadEditorAction::RequestPadEditor && final(self).pad == old(self).pad
                            && final(self).loaded == old(self).loaded
                    } else if vk == VK_C {
                        r == PadEditorAction::Redraw && final(self).pad@ == Pad::empty_view() && final(self).loaded
                    } else {
                        r == PadEditorAction::NotHandled && final(self).pad == old(self).pad && final(self).loaded
                    }
                } else {
                    r == PadEditorAction::Redraw && final(self).mode == old(self).mode && final(self).loaded
                        && final(self).pad@ == if old(self).mode == PadEditorMode::Header {
                        PadV {
                            header: field_after(
                                old(self).pad@.header,
                                vk,
                                modifiers,
                                paste_source(clipboard),
                                opt_view(typed),
                            ),
                            ..old(self).pad@
                        }
                    } else {
                        PadV {
                            text: field_after(
                                old(self).pad@.text,
                                vk,
                                modifiers,
                                paste_source(clipboard),
                                opt_view(typed),
                            ),
                            ..old(self).pad@
                        }
                    }
                }
            }),
    {
        let vk = vk_code(key);
        if vk == VK_UARROW {
            self.mode = self.mode.previous();
            return PadEditorAction::Redraw;
        }
        if vk == VK_DARROW {
            self.mode = self.mode.next();
            return PadEditorAction::Redraw;
        }
        if vk == VK_ESC {
            return PadEditorAction::Pop;
        }
        if vk == VK_ENTER && modifiers.is_none() {
            if self.loaded {
                return PadEditorAction::Save;
            }
            return PadEditorAction::NotHandled;
        }
        match self.mode {
            PadEditorMode::Action => {
                if vk == VK_S || vk == VK_RARROW {
                    PadEditorAction::EditShortcut
                } else if vk == VK_E {
                    PadEditorAction::RequestPadEditor
                } else if vk == VK_C {
                    self.pad = Pad::default();
                    self.loaded = true;
                    PadEditorAction::Redraw
                } else {
                    self.loaded = true;
                    PadEditorAction::NotHandled
                }
            },
            PadEditorMode::Header => {
                let h = PadEditor::edit_field(&self.pad.header, vk, modifiers, clipboard, typed);
                self.pad.header = h;
                self.loaded = true;
                PadEditorAction::Redraw
            },
            PadEditorMode::Text => {
                let t = PadEditor::edit_field(&self.pad.text, vk, modifiers, clipboard, typed);
                self.pad.text = t;
                self.loaded = true;
                PadEditorAction::Redraw
            },
        }
    }
}


impl PadEditor {
    /// The title of the editor: the part of the pad being edited.
    pub fn title(&self) -> (r: String)
        ensures
            r@ == match self.mode {
                PadEditorMode::Header => "Pad header"@,
                PadEditorMode::Text => "Pad text"@,
                PadEditorMode::Action => "Pad actions"@,
            },
    {
        match self.mode {
            PadEditorMode::Header => crate::text::owned("Pad header"),
            PadEditorMode::Text => crate::text::owned("Pad text"),
            PadEditorMode::Action => crate::text::owned("Pad actions"),
        }
    }

    /// Takes a captured shortcut: trimmed, and when not empty it becomes the
    /// pad's only action and its header (and the pad is taken up).
    pub fn set_first_action_shortcut(&mut self, value: &str)
        ensures
            final(self).mode == old(self).mode,
            trim(value@).len() == 0 ==> final(self).pad@ == old(self).pad@ && final(self).loaded == old(self).loaded,
            trim(value@).len() > 0 ==> final(self).loaded,
            trim(value@).len() > 0 ==> final(self).pad@ == (PadV {
                actions: seq![ActionView::Shortcut(trim(value@))],
                header: Some(trim(value@)),
                ..old(self).pad@
            }),
    {
        let v = trim_str(value);
        proof {
            reveal_strlit("");
            if v@.len() == 0 {
                assert(v@ =~= ""@);
            }
        }
        if str_eq(v.as_str(), "") {
            return;
        }
        let h = v.clone();
        self.loaded = true;
        self.pad.actions = vec![ActionType::Shortcut(v)];
        self.pad.header = Some(h);
        assert(actions_view(self.pad.actions@) =~= seq![ActionView::Shortcut(trim(value@))]);
    }
}

} // verus!
