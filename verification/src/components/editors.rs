//! The color scheme and text style editors: which scheme or style is shown, what
//! each key does to it and to the settings, and which board to open next.
use vstd::prelude::*;
use crate::components::controls::{vk_code, vk_of};
use crate::domain::data::{ColorScheme, ColorSchemeV, TextStyle, TextStyleV};
use crate::input::keys::vkey::{VK_C, VK_D, VK_DARROW, VK_DEL, VK_ENTER, VK_ESC, VK_F2, VK_LARROW, VK_R, VK_RARROW};
use crate::model::handle::{next_in, prev_in, ColorSchemeHandle, TextStyleHandle};
use crate::settings::persistence::{schemes_view, styles_view};
use crate::settings::settings::{
    keeps_boards, keeps_options, keeps_padsets, keeps_schemes, keeps_styles, lemma_name_position, lookup,
    name_position, Settings,
};
use crate::settings::validation::{scheme_names, style_names};
use crate::text::{concat, concat3, str_eq, trim, trim_str};

verus! {

/// What an editor asks for after a key.
#[derive(Debug, Clone, PartialEq, Eq)]
pub enum EditorAction {
    /// The key is not the editor's.
    NotHandled,
    /// Draw the board again.
    Redraw,
    /// Ask, with this question, whether to delete the shown item.
    AskDelete(String),
    /// Open the board that edits the shown item.
    OpenEditor,
    /// Open a text editor on this title.
    EditTitle(String),
    /// Leave the editor.
    Pop,
}

/// The name after a step: the next or previous name when there is one, else the
/// same.
pub open spec fn stepped(step: Option<Seq<char>>, name: Seq<char>) -> Seq<char> {
    match step {
        Some(n) => n,
        None => name,
    }
}

/// The question asked before an item is deleted.
pub open spec fn delete_question(name: Seq<char>) -> Seq<char> {
    "Delete\n\""@ + name + "\"?"@
}

/// The name of a copy.
pub open spec fn copy_name(name: Seq<char>) -> Seq<char> {
    name + " Copy"@
}

/// The color scheme editor: it shows one scheme of the settings at a time.
pub struct ColorSchemeEditor {
    handle: ColorSchemeHandle,
}

impl ColorSchemeEditor {
    /// The name of the scheme shown.
    pub closed spec fn shown(&self) -> Seq<char> {
        self.handle.name_spec()
    }

    /// An editor showing the named scheme, or the default scheme.
    pub fn new(name: Option<String>) -> (r: Self)
        ensures
            r.shown() == match crate::domain::integration::opt_view(name) {
                Some(n) => n,
                None => ColorScheme::default_view().name,
            },
    {
        Self { handle: ColorSchemeHandle::new(name) }
    }

    /// The name of the scheme shown.
    pub fn title(&self) -> (r: &str)
        ensures
            r@ == self.shown(),
    {
        self.handle.name()
    }

    /// Handles a key: the arrows left and right show the previous or next scheme;
    /// `c` adds a copy of the scheme (named with " Copy") and shows it, unless that
    /// name is taken; `d` or delete asks whether to delete it; down or enter opens
    /// its editor; `r` or F2 edits its name; escape leaves.
    pub fn key_down(&mut self, settings: &mut Settings, key: u32) -> (r: EditorAction)
        requires
            vk_of(key) == VK_DARROW || vk_of(key) == VK_ENTER ==> lookup(
                old(settings).schemes_v(),
                scheme_names(old(settings).schemes_v()),
                old(self).shown(),
            ) is Some,
        ensures
            ({
                let vk = vk_of(key);
                let names = scheme_names(old(settings).schemes_v());
                let cs = lookup(old(settings).schemes_v(), names, old(self).shown());
                if vk == VK_LARROW || vk == VK_RARROW {
                    &&& r == EditorAction::Redraw
                    &&& *final(settings) == *old(settings)
                    &&& final(self).shown() == stepped(
                        if vk == VK_RARROW {
                            next_in(names, old(self).shown())
                        } else {
                            prev_in(names, old(self).shown())
                        },
                        old(self).shown(),
                    )
                } else if vk == VK_C {
                    &&& r == EditorAction::Redraw
                    &&& (cs is None || names.contains(copy_name(cs->0.name))) ==> *final(settings) == *old(
                        settings,
                    ) && final(self).shown() == old(self).shown()
                    &&& (cs is Some && !names.contains(copy_name(cs->0.name))) ==> final(settings).schemes_v()
                        == old(settings).schemes_v().push(ColorSchemeV { name: copy_name(cs->0.name), ..cs->0 })
                        && final(settings).dirty_spec() && keeps_options(old(settings), final(settings))
                        && keeps_styles(old(settings), final(settings)) && keeps_boards(
                        old(settings),
                        final(settings),
                    ) && keeps_padsets(old(settings), final(settings)) && final(self).shown() == copy_name(
                        cs->0.name,
                    )
                } else {
                    &&& *final(settings) == *old(settings)
                    &&& final(self).shown() == old(self).shown()
                    &&& if vk == VK_D || vk == VK_DEL {
                        if cs is Some {
                            r matches EditorAction::AskDelete(q) && q@ == delete_question(old(self).shown())
                        } else {
                            r == EditorAction::NotHandled
                        }
                    } else if vk == VK_DARROW || vk == VK_ENTER {
                        r == EditorAction::OpenEditor
                    } else if vk == VK_R || vk == VK_F2 {
                        if cs is Some {
                            r matches EditorAction::EditTitle(t) && t@ == old(self).shown()
                        } else {
                            r == EditorAction::NotHandled
                        }
                    } else if vk == VK_ESC {
                        r == EditorAction::Pop
                    } else {
                        r == EditorAction::NotHandled
                    }
                }
            }),
    {
        let vk = vk_code(key);
        if vk == VK_LARROW || vk == VK_RARROW {
            if vk == VK_RARROW {
                self.handle.move_next(settings);
            } else {
                self.handle.move_prev(settings);
            }
            EditorAction::Redraw
        } else if vk == VK_C {
            if let Ok(cs) = self.handle.as_data(settings) {
                let mut copy = cs.clone();
                copy.name = concat(cs.name.as_str(), " Copy");
                let name = copy.name.clone();
                let ghost before = settings.data_spec().color_schemes@;
                match settings.add_color_scheme(copy) {
                    Ok(_) => {
                        proof {
                            assert(schemes_view(before.push(settings.data_spec().color_schemes@.last()))
                                =~= schemes_view(before).push(
                                settings.data_spec().color_schemes@.last()@,
                            ));
                        }
                        self.handle.select(name);
                    },
                    Err(_) => {},
                }
            }
            EditorAction::Redraw
        } else if vk == VK_D || vk == VK_DEL {
            if self.handle.as_data(settings).is_ok() {
                EditorAction::AskDelete(concat3("Delete\n\"", self.handle.name(), "\"?"))
            } else {
                EditorAction::NotHandled
            }
        } else if vk == VK_DARROW || vk == VK_ENTER {
            EditorAction::OpenEditor
        } else if vk == VK_R || vk == VK_F2 {
            if self.handle.as_data(settings).is_ok() {
                EditorAction::EditTitle(crate::text::owned(self.handle.name()))
            } else {
                EditorAction::NotHandled
            }
        } else if vk == VK_ESC {
            EditorAction::Pop
        } else {
            EditorAction::NotHandled
        }
    }

    /// Renames the shown scheme to `new_name` without surrounding white space, and
    /// keeps showing it; nothing changes when the name stays or the scheme is
    /// missing. A refused rename is the error.
    pub fn rename(&mut self, settings: &mut Settings, new_name: &str) -> (r: Result<(), String>)
        ensures
            ({
                let names = scheme_names(old(settings).schemes_v());
                let present = lookup(old(settings).schemes_v(), names, old(self).shown()) is Some;
                if !present || trim(new_name@) == old(self).shown() {
                    r is Ok && *final(settings) == *old(settings) && final(self).shown() == old(self).shown()
                } else if names.contains(trim(new_name@)) {
                    r matches Err(e) && e@ == "ColorScheme '"@ + trim(new_name@) + "' already exists"@
                        && *final(settings) == *old(settings) && final(self).shown() == old(self).shown()
                } else {
                    r is Ok && final(self).shown() == trim(new_name@) && final(settings).schemes_v()
                        == old(settings).schemes_v().update(
                        name_position(names, old(self).shown())->0,
                        ColorSchemeV {
                            name: trim(new_name@),
                            ..old(settings).schemes_v()[name_position(names, old(self).shown())->0]
                        },
                    )
                }
            }),
    {
        proof {
            lemma_name_position(scheme_names(settings.schemes_v()), self.shown());
        }
        if let Ok(cs) = self.handle.as_data(settings) {
            assert(cs.name@ == self.shown());
            let trimmed = trim_str(new_name);
            if !str_eq(cs.name.as_str(), trimmed.as_str()) {
                match settings.rename_color_scheme(cs.name.as_str(), trimmed.as_str()) {
                    Ok(_) => {
                        self.handle.select(trimmed);
                    },
                    Err(e) => {
                        return Err(e);
                    },
                }
            }
        }
        Ok(())
    }

    /// After the question: when confirmed and the scheme exists, shows the next
    /// scheme and deletes the one that was shown.
    pub fn confirm_delete(&mut self, settings: &mut Settings, confirm: bool)
        ensures
            ({
                let names = scheme_names(old(settings).schemes_v());
                let present = lookup(old(settings).schemes_v(), names, old(self).shown()) is Some;
                if confirm && present {
                    final(self).shown() == stepped(next_in(names, old(self).shown()), old(self).shown())
                        && final(settings).schemes_v() == old(settings).schemes_v().remove(
                        name_position(names, old(self).shown())->0,
                    ) && final(settings).dirty_spec() && keeps_options(old(settings), final(settings))
                        && keeps_styles(old(settings), final(settings)) && keeps_boards(old(settings), final(settings))
                        && keeps_padsets(old(settings), final(settings))
                } else {
                    *final(settings) == *old(settings) && final(self).shown() == old(self).shown()
                }
            }),
    {
        proof {
            lemma_name_position(scheme_names(settings.schemes_v()), self.shown());
        }
        if confirm {
            if let Ok(cs) = self.handle.as_data(settings) {
                self.handle.move_next(settings);
                let ghost before = settings.data_spec().color_schemes@;
                let ghost k = name_position(scheme_names(settings.schemes_v()), cs.name@)->0;
                let _ = settings.delete_color_scheme(cs.name.as_str());
                proof {
                    assert(schemes_view(before.remove(k)) =~= schemes_view(before).remove(k));
                }
            }
        }
    }
}

/// The text style editor: it shows one style of the settings at a time.
pub struct TextStyleEditor {
    handle: TextStyleHandle,
}

impl TextStyleEditor {
    /// The name of the style shown.
    pub closed spec fn shown(&self) -> Seq<char> {
        self.handle.name_spec()
    }

    /// An editor showing the named style, or the default style.
    pub fn new(name: Option<String>) -> (r: Self)
        ensures
            r.shown() == match crate::domain::integration::opt_view(name) {
                Some(n) => n,
                None => TextStyle::default_view().name,
            },
    {
        Self { handle: TextStyleHandle::new(name) }
    }

    /// The name of the style shown.
    pub fn title(&self) -> (r: &str)
        ensures
            r@ == self.shown(),
    {
        self.handle.name()
    }

    /// Handles a key: the arrows left and right show the previous or next style;
    /// `c` adds a copy of the style (named with " Copy") and shows it, unless that
    /// name is taken; `d` or delete shows the next style and deletes the shown one;
    /// down or enter opens its editor; `r` or F2 edits its name; escape leaves.
    pub fn key_down(&mut self, settings: &mut Settings, key: u32) -> (r: EditorAction)
        requires
            vk_of(key) == VK_DARROW || vk_of(key) == VK_ENTER ==> lookup(
                old(settings).styles_v(),
                style_names(old(settings).styles_v()),
                old(self).shown(),
            ) is Some,
        ensures
            ({
                let vk = vk_of(key);
                let names = style_names(old(settings).styles_v());
                let ts = lookup(old(settings).styles_v(), names, old(self).shown());
                if vk == VK_LARROW || vk == VK_RARROW {
                    &&& r == EditorAction::Redraw
                    &&& *final(settings) == *old(settings)
                    &&& final(self).shown() == stepped(
                        if vk == VK_RARROW {
                            next_in(names, old(self).shown())
                        } else {
                            prev_in(names, old(self).shown())
                        },
                        old(self).shown(),
                    )
                } else if vk == VK_C {
                    &&& r == EditorAction::Redraw
                    &&& (ts is None || names.contains(copy_name(ts->0.name))) ==> *final(settings) == *old(
                        settings,
                    ) && final(self).shown() == old(self).shown()
                    &&& (ts is Some && !names.contains(copy_name(ts->0.name))) ==> final(settings).styles_v()
                        == old(settings).styles_v().push(TextStyleV { name: copy_name(ts->0.name), ..ts->0 })
                        && final(settings).dirty_spec() && keeps_options(old(settings), final(settings))
                        && keeps_schemes(old(settings), final(settings)) && keeps_boards(
                        old(settings),
                        final(settings),
                    ) && keeps_padsets(old(settings), final(settings)) && final(self).shown() == copy_name(
                        ts->0.name,
                    )
                } else if vk == VK_D || vk == VK_DEL {
                    &&& r == EditorAction::Redraw
                    &&& ts is Some ==> final(self).shown() == stepped(
                        next_in(names, old(self).shown()),
                        old(self).shown(),
                    ) && final(settings).styles_v() == old(settings).styles_v().remove(
                        name_position(names, old(self).shown())->0,
                    ) && final(settings).dirty_spec() && keeps_options(old(settings), final(settings))
                        && keeps_schemes(old(settings), final(settings)) && keeps_boards(old(settings), final(settings))
                        && keeps_padsets(old(settings), final(settings))
                    &&& ts is None ==> *final(settings) == *old(settings) && final(self).shown() == old(
                        self,
                    ).shown()
                } else {
                    &&& *final(settings) == *old(settings)
                    &&& final(self).shown() == old(self).shown()
                    &&& if vk == VK_DARROW || vk == VK_ENTER {
                        r == EditorAction::OpenEditor
                    } else if vk == VK_R || vk == VK_F2 {
                        if ts is Some {
                            r matches EditorAction::EditTitle(t) && t@ == old(self).shown()
                        } else {
                            r == EditorAction::NotHandled
                        }
                    } else if vk == VK_ESC {
                        r == EditorAction::Pop
                    } else {
                        r == EditorAction::NotHandled
                    }
                }
            }),
    {
        let vk = vk_code(key);
        proof {
            lemma_name_position(style_names(settings.styles_v()), self.shown());
        }
        if vk == VK_LARROW || vk == VK_RARROW {
            if vk == VK_RARROW {
                self.handle.move_next(settings);
            } else {
                self.handle.move_prev(settings);
            }
            EditorAction::Redraw
        } else if vk == VK_C {
            if let Ok(ts) = self.handle.as_data(settings) {
                let mut copy = ts.clone();
                copy.name = concat(ts.name.as_str(), " Copy");
                let name = copy.name.clone();
                let ghost before = settings.data_spec().text_styles@;
                match settings.add_text_style(copy) {
                    Ok(_) => {
                        proof {
                            assert(styles_view(before.push(settings.data_spec().text_styles@.last()))
                                =~= styles_view(before).push(settings.data_spec().text_styles@.last()@));
                        }
                        self.handle.select(name);
                    },
                    Err(_) => {},
                }
            }
            EditorAction::Redraw
        } else if vk == VK_D || vk == VK_DEL {
            if let Ok(ts) = self.handle.as_data(settings) {
                self.handle.move_next(settings);
                let ghost before = settings.data_spec().text_styles@;
                let ghost k = name_position(style_names(settings.styles_v()), ts.name@)->0;
                let _ = settings.delete_text_style(ts.name.as_str());
                proof {
                    assert(styles_view(before.remove(k)) =~= styles_view(before).remove(k));
                }
            }
            EditorAction::Redraw
        } else if vk == VK_DARROW || vk == VK_ENTER {
            EditorAction::OpenEditor
        } else if vk == VK_R || vk == VK_F2 {
            if self.handle.as_data(settings).is_ok() {
                EditorAction::EditTitle(crate::text::owned(self.handle.name()))
            } else {
                EditorAction::NotHandled
            }
        } else if vk == VK_ESC {
            EditorAction::Pop
        } else {
            EditorAction::NotHandled
        }
    }

    /// Renames the shown style to `new_name` without surrounding white space, and
    /// keeps showing it; nothing changes when the name stays or the style is
    /// missing. A refused rename is the error.
    pub fn rename(&mut self, settings: &mut Settings, new_name: &str) -> (r: Result<(), String>)
        ensures
            ({
                let names = style_names(old(settings).styles_v());
                let present = lookup(old(settings).styles_v(), names, old(self).shown()) is Some;
                if !present || trim(new_name@) == old(self).shown() {
                    r is Ok && *final(settings) == *old(settings) && final(self).shown() == old(self).shown()
                } else if names.contains(trim(new_name@)) {
                    r matches Err(e) && e@ == "TextStyle '"@ + trim(new_name@) + "' already exists"@
                        && *final(settings) == *old(settings) && final(self).shown() == old(self).shown()
                } else {
                    r is Ok && final(self).shown() == trim(new_name@) && final(settings).styles_v()
                        == old(settings).styles_v().update(
                        name_position(names, old(self).shown())->0,
                        TextStyleV {
                            name: trim(new_name@),
                            ..old(settings).styles_v()[name_position(names, old(self).shown())->0]
                        },
                    )
                }
            }),
    {
        proof {
            lemma_name_position(style_names(settings.styles_v()), self.shown());
        }
        if let Ok(ts) = self.handle.as_data(settings) {
            assert(ts.name@ == self.shown());
            let trimmed = trim_str(new_name);
            if !str_eq(ts.name.as_str(), trimmed.as_str()) {
                match settings.rename_text_style(ts.name.as_str(), trimmed.as_str()) {
                    Ok(_) => {
                        self.handle.select(trimmed);
                    },
                    Err(e) => {
                        return Err(e);
                    },
                }
            }
        }
        Ok(())
    }
}

} // verus!
