//! Choosing a board's color scheme or text style: left and right walk through
//! those the settings hold, enter keeps the one shown, escape leaves.
use vstd::prelude::*;
use crate::components::controls::{vk_code, vk_of};
use crate::components::events::{UiEvent, UiEventResult};
use crate::domain::data::{BoardV, ColorScheme, TextStyle};
use crate::domain::integration::opt_view;
use crate::input::keys::vkey::{VK_ENTER, VK_ESC, VK_LARROW, VK_RARROW};
use crate::model::handle::{
    board_named, board_replaced, next_in, prev_in, resolved_scheme, resolved_style, BoardHandle,
    ColorSchemeHandle, TextStyleHandle,
};
use crate::settings::settings::{lemma_name_position, Settings};
use crate::settings::validation::{board_names, scheme_names, style_names};

verus! {

/// What a selector chooses.
#[derive(Debug, Clone, Copy, PartialEq, Eq, Structural)]
pub enum SelectorKind {
    ColorScheme,
    TextStyle,
}

/// The names of the color schemes or text styles the settings hold.
pub open spec fn kind_names(s: &Settings, kind: SelectorKind) -> Seq<Seq<char>> {
    match kind {
        SelectorKind::ColorScheme => scheme_names(s.schemes_v()),
        SelectorKind::TextStyle => style_names(s.styles_v()),
    }
}

/// The name of the scheme or style a board shows, resolved in the settings; the
/// default one when there is no such board.
pub open spec fn shown_name(s: &Settings, kind: SelectorKind, board: Seq<char>) -> Seq<char> {
    match board_named(s, board) {
        Some(b) => match kind {
            SelectorKind::ColorScheme => resolved_scheme(s, b.color_scheme).name,
            SelectorKind::TextStyle => resolved_style(s, b.text_style).name,
        },
        None => match kind {
            SelectorKind::ColorScheme => ColorScheme::default_view().name,
            SelectorKind::TextStyle => TextStyle::default_view().name,
        },
    }
}

/// The board with its scheme or style set to `choice` when the settings hold a
/// scheme or style of that name, else to none.
pub open spec fn with_choice(s: &Settings, kind: SelectorKind, b: BoardV, choice: Option<Seq<char>>) -> BoardV {
    let kept = match choice {
        Some(n) => if kind_names(s, kind).contains(n) {
            Some(n)
        } else {
            None
        },
        None => None,
    };
    match kind {
        SelectorKind::ColorScheme => BoardV { color_scheme: kept, ..b },
        SelectorKind::TextStyle => BoardV { text_style: kept, ..b },
    }
}

/// A chooser of a board's color scheme or text style, and the one it shows once
/// the user moved.
pub struct Selector {
    kind: SelectorKind,
    board_name: String,
    item: Option<String>,
}

impl Selector {
    /// What the selector chooses.
    pub closed spec fn kind_spec(&self) -> SelectorKind {
        self.kind
    }

    /// The board whose scheme or style is chosen.
    pub closed spec fn board_spec(&self) -> Seq<char> {
        self.board_name@
    }

    /// The name moved to, none before the first move.
    pub closed spec fn item_spec(&self) -> Option<Seq<char>> {
        opt_view(self.item)
    }

    /// The name shown: the one moved to, else the board's own.
    pub open spec fn current_spec(&self, s: &Settings) -> Seq<char> {
        match self.item_spec() {
            Some(n) => n,
            None => shown_name(s, self.kind_spec(), self.board_spec()),
        }
    }

    /// A selector for a board, showing the board's own scheme or style.
    pub fn new(kind: SelectorKind, board_name: String) -> (r: Self)
        ensures
            r.kind_spec() == kind,
            r.board_spec() == board_name@,
            r.item_spec() is None,
    {
        Self { kind, board_name, item: None }
    }

    /// The name shown, which is also the selector's title.
    pub fn current(&self, settings: &Settings) -> (r: String)
        ensures
            r@ == self.current_spec(settings),
    {
        match &self.item {
            Some(n) => n.clone(),
            None => {
                let h = BoardHandle::new(self.board_name.clone());
                match self.kind {
                    SelectorKind::ColorScheme => match h.color_scheme(settings) {
                        Ok(c) => c.name,
                        Err(_) => ColorScheme::default().name,
                    },
                    SelectorKind::TextStyle => match h.text_style(settings) {
                        Ok(t) => t.name,
                        Err(_) => TextStyle::default().name,
                    },
                }
            },
        }
    }

    /// Handles an event: right and left show the next and the previous scheme or
    /// style; enter gives the board the one moved to (none when the user did not
    /// move, or when the board is missing nothing changes) and leaves; escape
    /// leaves; other events are not handled.
    pub fn handle_ui_event(&mut self, settings: &mut Settings, event: UiEvent) -> (r: UiEventResult)
        requires
            event matches UiEvent::KeyDown(ke) && (vk_of(ke.key) == VK_LARROW || vk_of(ke.key) == VK_RARROW)
                ==> kind_names(old(settings), old(self).kind_spec()).contains(old(self).current_spec(old(settings))),
        ensures
            final(self).kind_spec() == old(self).kind_spec(),
            final(self).board_spec() == old(self).board_spec(),
            match event {
                UiEvent::KeyDown(ke) => {
                    let vk = vk_of(ke.key);
                    let names = kind_names(old(settings), old(self).kind_spec());
                    let cur = old(self).current_spec(old(settings));
                    if vk == VK_RARROW {
                        r == UiEventResult::RequiresRedraw && *final(settings) == *old(settings)
                            && final(self).item_spec() == next_in(names, cur)
                    } else if vk == VK_LARROW {
                        r == UiEventResult::RequiresRedraw && *final(settings) == *old(settings)
                            && final(self).item_spec() == prev_in(names, cur)
                    } else if vk == VK_ENTER {
                        &&& r == UiEventResult::PopState
                        &&& final(self).item_spec() == old(self).item_spec()
                        &&& board_named(old(settings), old(self).board_spec()) is Some ==> board_replaced(
                            old(settings),
                            final(settings),
                            old(self).board_spec(),
                            with_choice(
                                old(settings),
                                old(self).kind_spec(),
                                board_named(old(settings), old(self).board_spec())->0,
                                old(self).item_spec(),
                            ),
                        )
                        &&& board_named(old(settings), old(self).board_spec()) is None ==> *final(settings)
                            == *old(settings)
                    } else if vk == VK_ESC {
                        r == UiEventResult::PopState && *final(settings) == *old(settings)
                            && final(self).item_spec() == old(self).item_spec()
                    } else {
                        r == UiEventResult::NotHandled && *final(settings) == *old(settings)
                            && final(self).item_spec() == old(self).item_spec()
                    }
                },
                _ => r == UiEventResult::NotHandled && *final(settings) == *old(settings)
                    && final(self).item_spec() == old(self).item_spec(),
            },
    {
        match event {
            UiEvent::KeyDown(ke) => {
                let vk = vk_code(ke.key);
                if vk == VK_RARROW || vk == VK_LARROW {
                    let cur = self.current(settings);
                    let moved = match self.kind {
                        SelectorKind::ColorScheme => {
                            let h = ColorSchemeHandle::new(Some(cur));
                            if vk == VK_RARROW {
                                h.next_name(settings)
                            } else {
                                h.prev_name(settings)
                            }
                        },
                        SelectorKind::TextStyle => {
                            let h = TextStyleHandle::new(Some(cur));
                            if vk == VK_RARROW {
                                h.next_name(settings)
                            } else {
                                h.prev_name(settings)
                            }
                        },
                    };
                    self.item = moved;
                    UiEventResult::RequiresRedraw
                } else if vk == VK_ENTER {
                    let h = BoardHandle::new(self.board_name.clone());
                    let choice = crate::domain::integration::clone_opt(&self.item);
                    proof {
                        lemma_name_position(board_names(settings.boards_v()), self.board_name@);
                    }
                    let _ = match self.kind {
                        SelectorKind::ColorScheme => h.set_color_scheme(settings, choice),
                        SelectorKind::TextStyle => h.set_text_style(settings, choice),
                    };
                    UiEventResult::PopState
                } else if vk == VK_ESC {
                    UiEventResult::PopState
                } else {
                    UiEventResult::NotHandled
                }
            },
            _ => UiEventResult::NotHandled,
        }
    }
}

} // verus!
