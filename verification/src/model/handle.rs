//! Handles on the components of the settings repository, by name: a board, a pad
//! set, a color scheme and a text style; and the use cases that create boards and
//! check a conversion into a board chain.
use vstd::prelude::*;
use crate::domain::data::{
    strs_view, Board, BoardV, ColorScheme, ColorSchemeV, Detection, DetectionV, PadSet, TextStyle,
    TextStyleV,
};
use crate::domain::integration::{opt_view, BoardType, BoardTypeView, ChainParams};
use crate::domain::resources::{slug, slugify_process_name};
use crate::input::keys::{modifier_names, ModifierState};
use crate::settings::settings::{
    find_name, keeps_boards, keeps_options, keeps_padsets, keeps_schemes, keeps_styles,
    lemma_name_position, lemma_position_distinct, lookup, name_position, Settings,
};
use crate::settings::validation::{all_distinct, board_names, scheme_names, style_names};
use crate::text::{concat, concat3, join, lowercase_of, owned, replace_all, str_eq, to_lowercase};

verus! {

/// The name after `x` among `names`, the first after the last; none when `x` is
/// not among them.
pub open spec fn next_in(names: Seq<Seq<char>>, x: Seq<char>) -> Option<Seq<char>> {
    match name_position(names, x) {
        Some(k) => Some(names[(k + 1) % (names.len() as int)]),
        None => None,
    }
}

/// The name before `x` among `names`, the last before the first; none when `x` is
/// not among them.
pub open spec fn prev_in(names: Seq<Seq<char>>, x: Seq<char>) -> Option<Seq<char>> {
    match name_position(names, x) {
        Some(k) => Some(
            if k == 0 {
                names[names.len() - 1]
            } else {
                names[k - 1]
            },
        ),
        None => None,
    }
}

/// The name after `name` among `names`, the first after the last.
fn next_of(names: &Vec<String>, name: &str) -> (r: Option<String>)
    ensures
        opt_view(r) == next_in(strs_view(names@), name@),
{
    proof {
        lemma_name_position(strs_view(names@), name@);
    }
    match find_name(names, name) {
        Some(k) => {
            assert(k < names.len());
            Some(names[(k + 1) % names.len()].clone())
        },
        None => None,
    }
}

/// The name before `name` among `names`, the last before the first.
fn prev_of(names: &Vec<String>, name: &str) -> (r: Option<String>)
    ensures
        opt_view(r) == prev_in(strs_view(names@), name@),
{
    proof {
        lemma_name_position(strs_view(names@), name@);
    }
    match find_name(names, name) {
        Some(k) => {
            let p = if k == 0 {
                names.len() - 1
            } else {
                k - 1
            };
            Some(names[p].clone())
        },
        None => None,
    }
}

/// Among distinct names, stepping to the next name and back, or back and then on,
/// gives the name again.
pub proof fn law_next_prev_inverse(names: Seq<Seq<char>>, x: Seq<char>)
    requires
        all_distinct(names),
        names.contains(x),
    ensures
        next_in(names, x) is Some,
        prev_in(names, next_in(names, x)->0) == Some(x),
        prev_in(names, x) is Some,
        next_in(names, prev_in(names, x)->0) == Some(x),
{
    lemma_name_position(names, x);
    let k = name_position(names, x)->0;
    let n = names.len() as int;
    let nx = (k + 1) % n;
    lemma_position_distinct(names, nx);
    let pv = if k == 0 {
        n - 1
    } else {
        k - 1
    };
    lemma_position_distinct(names, pv);
    lemma_position_distinct(names, k);
    if k + 1 < n {
        assert(nx == k + 1) by (nonlinear_arith)
            requires
                nx == (k + 1) % n,
                0 <= k + 1 < n,
        ;
    } else {
        assert(nx == 0) by (nonlinear_arith)
            requires
                nx == (k + 1) % n,
                k + 1 == n,
                n > 0,
        ;
    }
    let back = (pv + 1) % n;
    if k == 0 {
        assert(back == 0) by (nonlinear_arith)
            requires
                back == (pv + 1) % n,
                pv + 1 == n,
                n > 0,
        ;
    } else {
        assert(back == k) by (nonlinear_arith)
            requires
                back == (pv + 1) % n,
                pv + 1 == k,
                0 <= k < n,
        ;
    }
}

/// A handle on a color scheme, by name.
pub struct ColorSchemeHandle {
    name: String,
}

impl ColorSchemeHandle {
    /// The name the handle stands for.
    pub closed spec fn name_spec(&self) -> Seq<char> {
        self.name@
    }

    /// A handle on the named scheme, or on the default scheme when no name is given.
    pub fn new(name: Option<String>) -> (r: Self)
        ensures
            r.name_spec() == match opt_view(name) {
                Some(n) => n,
                None => ColorScheme::default_view().name,
            },
    {
        match name {
            Some(n) => Self { name: n },
            None => Self { name: ColorScheme::default().name },
        }
    }

    /// The scheme of this name, if the settings hold one.
    pub fn as_data(&self, settings: &Settings) -> (r: Result<ColorScheme, ()>)
        ensures
            match r {
                Ok(c) => lookup(settings.schemes_v(), scheme_names(settings.schemes_v()), self.name_spec())
                    == Some(c@),
                Err(_) => lookup(settings.schemes_v(), scheme_names(settings.schemes_v()), self.name_spec())
                    is None,
            },
    {
        match settings.get_color_scheme(self.name.as_str()) {
            Some(c) => Ok(c),
            None => Err(()),
        }
    }

    /// The name the handle stands for.
    pub fn name(&self) -> (r: &str)
        ensures
            r@ == self.name_spec(),
    {
        self.name.as_str()
    }

    /// The name of the scheme after this one, the first after the last.
    pub fn next_name(&self, settings: &Settings) -> (r: Option<String>)
        ensures
            opt_view(r) == next_in(scheme_names(settings.schemes_v()), self.name_spec()),
    {
        let names = settings.color_schemes();
        next_of(&names, self.name.as_str())
    }

    /// The name of the scheme before this one, the last before the first.
    pub fn prev_name(&self, settings: &Settings) -> (r: Option<String>)
        ensures
            opt_view(r) == prev_in(scheme_names(settings.schemes_v()), self.name_spec()),
    {
        let names = settings.color_schemes();
        prev_of(&names, self.name.as_str())
    }

    /// Moves to the next scheme; stays where the name is not held.
    pub fn move_next(&mut self, settings: &Settings)
        ensures
            final(self).name_spec() == match next_in(scheme_names(settings.schemes_v()), old(self).name_spec()) {
                Some(n) => n,
                None => old(self).name_spec(),
            },
    {
        match self.next_name(settings) {
            Some(n) => {
                self.name = n;
            },
            None => {},
        }
    }

    /// Moves to the previous scheme; stays where the name is not held.
    pub fn move_prev(&mut self, settings: &Settings)
        ensures
            final(self).name_spec() == match prev_in(scheme_names(settings.schemes_v()), old(self).name_spec()) {
                Some(n) => n,
                None => old(self).name_spec(),
            },
    {
        match self.prev_name(settings) {
            Some(n) => {
                self.name = n;
            },
            None => {},
        }
    }

    /// Makes the handle stand for another name.
    pub fn select(&mut self, name: String)
        ensures
            final(self).name_spec() == name@,
    {
        self.name = name;
    }

    /// Replaces the scheme of this name by `new_scheme`, which must keep the name.
    pub fn update(&self, settings: &mut Settings, new_scheme: ColorScheme) -> (r: Result<(), String>)
        ensures
            new_scheme.name@ != self.name_spec() ==> (r matches Err(e) && e@
                == "Cannot change the name of an existing ColorScheme"@) && *final(settings) == *old(
                settings,
            ),
            new_scheme.name@ == self.name_spec() ==> match r {
                Ok(_) => name_position(scheme_names(old(settings).schemes_v()), self.name_spec()) is Some
                    && final(settings).data_spec().color_schemes@ == old(
                    settings,
                ).data_spec().color_schemes@.update(
                    name_position(scheme_names(old(settings).schemes_v()), self.name_spec())->0,
                    new_scheme,
                ) && final(settings).dirty_spec(),
                Err(e) => name_position(scheme_names(old(settings).schemes_v()), self.name_spec()) is None
                    && e@ == "ColorScheme '"@ + self.name_spec() + "' not found"@
                    && *final(settings) == *old(settings),
            },
            keeps_options(old(settings), final(settings)),
            keeps_styles(old(settings), final(settings)),
            keeps_boards(old(settings), final(settings)),
            keeps_padsets(old(settings), final(settings)),
    {
        if !str_eq(new_scheme.name.as_str(), self.name.as_str()) {
            return Err(owned("Cannot change the name of an existing ColorScheme"));
        }
        settings.set_color_scheme(new_scheme)
    }
}

/// A handle on a text style, by name.
pub struct TextStyleHandle {
    name: String,
}

impl TextStyleHandle {
    /// The name the handle stands for.
    pub closed spec fn name_spec(&self) -> Seq<char> {
        self.name@
    }

    /// A handle on the named style, or on the default style when no name is given.
    pub fn new(name: Option<String>) -> (r: Self)
        ensures
            r.name_spec() == match opt_view(name) {
                Some(n) => n,
                None => TextStyle::default_view().name,
            },
    {
        match name {
            Some(n) => Self { name: n },
            None => Self { name: TextStyle::default().name },
        }
    }

    /// The style of this name, if the settings hold one.
    pub fn as_data(&self, settings: &Settings) -> (r: Result<TextStyle, ()>)
        ensures
            match r {
                Ok(c) => lookup(settings.styles_v(), style_names(settings.styles_v()), self.name_spec())
                    == Some(c@),
                Err(_) => lookup(settings.styles_v(), style_names(settings.styles_v()), self.name_spec())
                    is None,
            },
    {
        match settings.get_text_style(self.name.as_str()) {
            Some(c) => Ok(c),
            None => Err(()),
        }
    }

    /// The name the handle stands for.
    pub fn name(&self) -> (r: &str)
        ensures
            r@ == self.name_spec(),
    {
        self.name.as_str()
    }

    /// The name of the style after this one, the first after the last.
    pub fn next_name(&self, settings: &Settings) -> (r: Option<String>)
        ensures
            opt_view(r) == next_in(style_names(settings.styles_v()), self.name_spec()),
    {
        let names = settings.text_styles();
        next_of(&names, self.name.as_str())
    }

    /// The name of the style before this one, the last before the first.
    pub fn prev_name(&self, settings: &Settings) -> (r: Option<String>)
        ensures
            opt_view(r) == prev_in(style_names(settings.styles_v()), self.name_spec()),
    {
        let names = settings.text_styles();
        prev_of(&names, self.name.as_str())
    }

    /// Moves to the next style; stays where the name is not held.
    pub fn move_next(&mut self, settings: &Settings)
        ensures
            final(self).name_spec() == match next_in(style_names(settings.styles_v()), old(self).name_spec()) {
                Some(n) => n,
                None => old(self).name_spec(),
            },
    {
        match self.next_name(settings) {
            Some(n) => {
                self.name = n;
            },
            None => {},
        }
    }

    /// Moves to the previous style; stays where the name is not held.
    pub fn move_prev(&mut self, settings: &Settings)
        ensures
            final(self).name_spec() == match prev_in(style_names(settings.styles_v()), old(self).name_spec()) {
                Some(n) => n,
                None => old(self).name_spec(),
            },
    {
        match self.prev_name(settings) {
            Some(n) => {
                self.name = n;
            },
            None => {},
        }
    }

    /// Makes the handle stand for another name.
    pub fn select(&mut self, name: String)
        ensures
            final(self).name_spec() == name@,
    {
        self.name = name;
    }

    /// Replaces the style of this name by `new_style`, which must keep the name.
    pub fn update(&self, settings: &mut Settings, new_style: TextStyle) -> (r: Result<(), String>)
        ensures
            new_style.name@ != self.name_spec() ==> (r matches Err(e) && e@
                == "Cannot change the name of an existing TextStyle"@) && *final(settings) == *old(
                settings,
            ),
            new_style.name@ == self.name_spec() ==> match r {
                Ok(_) => name_position(style_names(old(settings).styles_v()), self.name_spec()) is Some
                    && final(settings).data_spec().text_styles@ == old(
                    settings,
                ).data_spec().text_styles@.update(
                    name_position(style_names(old(settings).styles_v()), self.name_spec())->0,
                    new_style,
                ) && final(settings).dirty_spec(),
                Err(e) => name_position(style_names(old(settings).styles_v()), self.name_spec()) is None
                    && e@ == "TextStyle '"@ + self.name_spec() + "' not found"@
                    && *final(settings) == *old(settings),
            },
            keeps_options(old(settings), final(settings)),
            keeps_schemes(old(settings), final(settings)),
            keeps_boards(old(settings), final(settings)),
            keeps_padsets(old(settings), final(settings)),
    {
        if !str_eq(new_style.name.as_str(), self.name.as_str()) {
            return Err(owned("Cannot change the name of an existing TextStyle"));
        }
        settings.set_text_style(new_style)
    }
}


/// The title of a board: its title, or its name when it has none.
pub open spec fn board_title(b: BoardV) -> Seq<char> {
    match b.title {
        Some(t) => t,
        None => b.name,
    }
}

/// The icon of a board, none when it has none or an empty one.
pub open spec fn board_icon(b: BoardV) -> Option<Seq<char>> {
    match b.icon {
        Some(i) => if i.len() > 0 {
            Some(i)
        } else {
            None
        },
        None => None,
    }
}

/// The color scheme that a name resolves to in the settings: the scheme of that
/// name (of the default name when none is given), else the default scheme.
pub open spec fn resolved_scheme(s: &Settings, name: Option<Seq<char>>) -> ColorSchemeV {
    match lookup(
        s.schemes_v(),
        scheme_names(s.schemes_v()),
        match name {
            Some(n) => n,
            None => ColorScheme::default_view().name,
        },
    ) {
        Some(c) => c,
        None => ColorScheme::default_view(),
    }
}

/// The text style that a name resolves to in the settings: the style of that name
/// (of the default name when none is given), else the default style.
pub open spec fn resolved_style(s: &Settings, name: Option<Seq<char>>) -> TextStyleV {
    match lookup(
        s.styles_v(),
        style_names(s.styles_v()),
        match name {
            Some(n) => n,
            None => TextStyle::default_view().name,
        },
    ) {
        Some(c) => c,
        None => TextStyle::default_view(),
    }
}

/// The board of a name in the settings, if any.
pub open spec fn board_named(s: &Settings, name: Seq<char>) -> Option<BoardV> {
    lookup(s.boards_v(), board_names(s.boards_v()), name)
}

/// The message for a missing board.
pub open spec fn board_missing(name: Seq<char>) -> Seq<char> {
    "Board '"@ + name + "' not found"@
}

/// The settings after the board at the position of `name` was replaced by `b`.
pub open spec fn board_replaced(old: &Settings, new: &Settings, name: Seq<char>, b: BoardV) -> bool {
    &&& name_position(board_names(old.boards_v()), name) is Some
    &&& new.boards_v() == old.boards_v().update(name_position(board_names(old.boards_v()), name)->0, b)
    &&& new.dirty_spec()
    &&& keeps_options(old, new)
    &&& keeps_schemes(old, new)
    &&& keeps_styles(old, new)
    &&& keeps_padsets(old, new)
}

/// A handle on a pad set, by name.
pub struct PadSetHandle {
    padset_name: String,
}

impl PadSetHandle {
    /// The name the handle stands for.
    pub closed spec fn name_spec(&self) -> Seq<char> {
        self.padset_name@
    }

    /// A handle on the named pad set.
    pub fn new(padset_name: String) -> (r: Self)
        ensures
            r.name_spec() == padset_name@,
    {
        Self { padset_name }
    }

    /// The name the handle stands for.
    pub fn name(&self) -> (r: &str)
        ensures
            r@ == self.name_spec(),
    {
        self.padset_name.as_str()
    }
}

/// A handle on a board, by name.
pub struct BoardHandle {
    board_name: String,
}

impl BoardHandle {
    /// The name the handle stands for.
    pub closed spec fn name_spec(&self) -> Seq<char> {
        self.board_name@
    }

    /// A handle on the named board.
    pub fn new(board_name: String) -> (r: Self)
        ensures
            r.name_spec() == board_name@,
    {
        Self { board_name }
    }

    /// The name the handle stands for.
    pub fn name(&self) -> (r: &str)
        ensures
            r@ == self.name_spec(),
    {
        self.board_name.as_str()
    }

    /// The board's title, or the error that there is no such board.
    pub fn title(&self, settings: &Settings) -> (r: Result<String, String>)
        ensures
            match r {
                Ok(t) => board_named(settings, self.name_spec()) is Some && t@ == board_title(
                    board_named(settings, self.name_spec())->0,
                ),
                Err(e) => board_named(settings, self.name_spec()) is None && e@ == board_missing(
                    self.name_spec(),
                ),
            },
    {
        let board = settings.get_board(self.board_name.as_str())?;
        Ok(board.title())
    }

    /// The board's icon, none when it has none or an empty one; or the error that
    /// there is no such board.
    pub fn icon(&self, settings: &Settings) -> (r: Result<Option<String>, String>)
        ensures
            match r {
                Ok(i) => board_named(settings, self.name_spec()) is Some && opt_view(i) == board_icon(
                    board_named(settings, self.name_spec())->0,
                ),
                Err(e) => board_named(settings, self.name_spec()) is None && e@ == board_missing(
                    self.name_spec(),
                ),
            },
    {
        let board = settings.get_board(self.board_name.as_str())?;
        let icon = board.icon();
        if icon.as_str().is_empty() {
            Ok(None)
        } else {
            Ok(Some(icon))
        }
    }

    /// The board's color scheme, resolved in the settings; or the error that there
    /// is no such board.
    pub fn color_scheme(&self, settings: &Settings) -> (r: Result<ColorScheme, String>)
        ensures
            match r {
                Ok(c) => board_named(settings, self.name_spec()) is Some && c@ == resolved_scheme(
                    settings,
                    board_named(settings, self.name_spec())->0.color_scheme,
                ),
                Err(e) => board_named(settings, self.name_spec()) is None && e@ == board_missing(
                    self.name_spec(),
                ),
            },
    {
        let board = settings.get_board(self.board_name.as_str())?;
        Ok(settings.resolve_color_scheme(&board.color_scheme))
    }

    /// The board's text style, resolved in the settings; or the error that there is
    /// no such board.
    pub fn text_style(&self, settings: &Settings) -> (r: Result<TextStyle, String>)
        ensures
            match r {
                Ok(c) => board_named(settings, self.name_spec()) is Some && c@ == resolved_style(
                    settings,
                    board_named(settings, self.name_spec())->0.text_style,
                ),
                Err(e) => board_named(settings, self.name_spec()) is None && e@ == board_missing(
                    self.name_spec(),
                ),
            },
    {
        let board = settings.get_board(self.board_name.as_str())?;
        Ok(settings.resolve_text_style(&board.text_style))
    }

    /// The pad set the board shows with the given modifiers held; an error when
    /// there is no such board or no such pad set name.
    pub fn padset(&self, settings: &Settings, modifier: Option<ModifierState>) -> (r: Result<
        PadSetHandle,
        String,
    >)
        ensures
            match r {
                Ok(h) => board_named(settings, self.name_spec()) is Some && crate::domain::data::padset_name_spec(
                    board_named(settings, self.name_spec())->0,
                    match modifier {
                        Some(m) => Some(join(modifier_names(m), "+"@)),
                        None => None,
                    },
                ) == Some(h.name_spec()),
                Err(e) => board_named(settings, self.name_spec()) is None && e@ == board_missing(
                    self.name_spec(),
                ) || board_named(settings, self.name_spec()) is Some
                    && crate::domain::data::padset_name_spec(
                    board_named(settings, self.name_spec())->0,
                    match modifier {
                        Some(m) => Some(join(modifier_names(m), "+"@)),
                        None => None,
                    },
                ) is None && e@ == "PadSet not found for the given modifier"@,
            },
    {
        let board = settings.get_board(self.board_name.as_str())?;
        let name = match modifier {
            Some(m) => {
                let t = m.to_string();
                board.padset_name(Some(t.as_str()))
            },
            None => board.padset_name(None),
        };
        match name {
            Some(n) => Ok(PadSetHandle::new(n)),
            None => Err(owned("PadSet not found for the given modifier")),
        }
    }

    /// Sets the board's title; an error when there is no such board.
    pub fn set_title(&self, settings: &mut Settings, title: Option<String>) -> (r: Result<(), String>)
        ensures
            match r {
                Ok(_) => board_named(old(settings), self.name_spec()) is Some && board_replaced(
                    old(settings),
                    final(settings),
                    self.name_spec(),
                    BoardV { title: opt_view(title), ..board_named(old(settings), self.name_spec())->0 },
                ),
                Err(e) => board_named(old(settings), self.name_spec()) is None && e@ == board_missing(
                    self.name_spec(),
                ) && *final(settings) == *old(settings),
            },
    {
        proof {
            lemma_name_position(board_names(settings.boards_v()), self.name_spec());
        }
        let mut board = settings.get_board(self.board_name.as_str())?;
        assert(board.name@ == self.name_spec());
        board.title = title;
        self.store(settings, board)
    }

    /// Sets the board's color scheme to the named one when the settings hold it,
    /// else to none; an error when there is no such board.
    pub fn set_color_scheme(&self, settings: &mut Settings, color_scheme: Option<String>) -> (r: Result<
        (),
        String,
    >)
        ensures
            match r {
                Ok(_) => board_named(old(settings), self.name_spec()) is Some && board_replaced(
                    old(settings),
                    final(settings),
                    self.name_spec(),
                    BoardV {
                        color_scheme: match opt_view(color_scheme) {
                            Some(n) => if scheme_names(old(settings).schemes_v()).contains(n) {
                                Some(n)
                            } else {
                                None
                            },
                            None => None,
                        },
                        ..board_named(old(settings), self.name_spec())->0
                    },
                ),
                Err(e) => board_named(old(settings), self.name_spec()) is None && e@ == board_missing(
                    self.name_spec(),
                ) && *final(settings) == *old(settings),
            },
    {
        proof {
            lemma_name_position(board_names(settings.boards_v()), self.name_spec());
        }
        let mut board = settings.get_board(self.board_name.as_str())?;
        assert(board.name@ == self.name_spec());
        let chosen = match &color_scheme {
            Some(n) => {
                proof {
                    lemma_name_position(scheme_names(settings.schemes_v()), n@);
                }
                match settings.get_color_scheme(n.as_str()) {
                    Some(cs) => Some(cs.name),
                    None => None,
                }
            },
            None => None,
        };
        board.color_scheme = chosen;
        self.store(settings, board)
    }

    /// Sets the board's text style to the named one when the settings hold it,
    /// else to none; an error when there is no such board.
    pub fn set_text_style(&self, settings: &mut Settings, text_style: Option<String>) -> (r: Result<
        (),
        String,
    >)
        ensures
            match r {
                Ok(_) => board_named(old(settings), self.name_spec()) is Some && board_replaced(
                    old(settings),
                    final(settings),
                    self.name_spec(),
                    BoardV {
                        text_style: match opt_view(text_style) {
                            Some(n) => if style_names(old(settings).styles_v()).contains(n) {
                                Some(n)
                            } else {
                                None
                            },
                            None => None,
                        },
                        ..board_named(old(settings), self.name_spec())->0
                    },
                ),
                Err(e) => board_named(old(settings), self.name_spec()) is None && e@ == board_missing(
                    self.name_spec(),
                ) && *final(settings) == *old(settings),
            },
    {
        proof {
            lemma_name_position(board_names(settings.boards_v()), self.name_spec());
        }
        let mut board = settings.get_board(self.board_name.as_str())?;
        assert(board.name@ == self.name_spec());
        let chosen = match &text_style {
            Some(n) => {
                proof {
                    lemma_name_position(style_names(settings.styles_v()), n@);
                }
                match settings.get_text_style(n.as_str()) {
                    Some(ts) => Some(ts.name),
                    None => None,
                }
            },
            None => None,
        };
        board.text_style = chosen;
        self.store(settings, board)
    }

    /// Stores a changed copy of the handle's board, which the settings hold.
    fn store(&self, settings: &mut Settings, board: Board) -> (r: Result<(), String>)
        requires
            board_named(old(settings), self.name_spec()) is Some,
            board.name@ == self.name_spec(),
        ensures
            r is Ok,
            board_replaced(old(settings), final(settings), self.name_spec(), board@),
    {
        proof {
            lemma_name_position(board_names(settings.boards_v()), self.name_spec());
        }
        let ghost before = settings.data_spec().boards@;
        let r = settings.set_board(board);
        proof {
            let k = name_position(board_names(old(settings).boards_v()), self.name_spec())->0;
            assert(crate::settings::persistence::boards_view(before.update(k, board)) =~= crate::settings::persistence::boards_view(
                before,
            ).update(k, board@));
        }
        r
    }
}


/// The board that a detected process gets: named and titled by the process slug,
/// detected by the process name without ".exe", lower-cased, showing the pad set
/// of its own name.
pub open spec fn detectable_board(process: Seq<char>, icon: Option<Seq<char>>) -> BoardV {
    BoardV {
        board_type: BoardTypeView::Static,
        name: slug(process),
        title: Some(slug(process)),
        icon: icon,
        detection: DetectionV::Win32(lowercase_of(replace_all(process, ".exe"@, ""@))),
        color_scheme: None,
        text_style: None,
        base_pads: Some(slug(process)),
        modifier_pads: Seq::empty(),
    }
}

/// An empty pad set of a name.
pub open spec fn empty_padset(name: Seq<char>) -> crate::domain::data::PadSetV {
    crate::domain::data::PadSetV { name: name, items: Seq::empty() }
}

/// Adds a new board and its empty pad set of the same name, and gives the board
/// back; the board must be new. Fails when a pad set of that name exists, after
/// the board was added.
fn add_board_with_padset(settings: &mut Settings, board: Board) -> (r: Result<Board, String>)
    requires
        !board_names(old(settings).boards_v()).contains(board.name@),
    ensures
        final(settings).boards_v() == old(settings).boards_v().push(board@),
        final(settings).dirty_spec(),
        keeps_options(old(settings), final(settings)),
        keeps_schemes(old(settings), final(settings)),
        keeps_styles(old(settings), final(settings)),
        crate::settings::validation::padset_names(old(settings).padsets_v()).contains(board.name@) ==> (r matches Err(e)
            && e@ == "PadSet '"@ + board.name@ + "' already exists"@ && keeps_padsets(old(settings), final(settings))),
        !crate::settings::validation::padset_names(old(settings).padsets_v()).contains(board.name@) ==> (r matches Ok(b)
            && b@ == board@ && final(settings).padsets_v() == old(settings).padsets_v().push(
            empty_padset(board.name@),
        )),
{
    let ghost bv = board@;
    let ghost before = settings.data_spec().boards@;
    let ghost before_ps = settings.data_spec().padsets@;
    let name = board.name.clone();
    let r = settings.add_board(board);
    proof {
        assert(crate::settings::persistence::boards_view(before.push(settings.data_spec().boards@.last()))
            =~= crate::settings::persistence::boards_view(before).push(bv));
    }
    let padset = PadSet::new(name.as_str(), Vec::new());
    assert(padset@.items =~= Seq::<crate::domain::data::PadV>::empty());
    assert(padset@ == empty_padset(name@));
    match settings.add_padset(padset) {
        Ok(_) => {
            proof {
                assert(crate::settings::persistence::padsets_view(
                    before_ps.push(settings.data_spec().padsets@.last()),
                ) =~= crate::settings::persistence::padsets_view(before_ps).push(empty_padset(name@)));
                crate::settings::settings::law_lookup_after_add(
                    crate::settings::persistence::boards_view(before),
                    board_names(crate::settings::persistence::boards_view(before)),
                    bv,
                    name@,
                );
                assert(board_names(settings.boards_v()) =~= board_names(
                    crate::settings::persistence::boards_view(before),
                ).push(name@));
            }
            settings.get_board(name.as_str())
        },
        Err(e) => Err(e),
    }
}

/// Creates the board of a detected process, with the icon name it gets.
pub struct CreateDetectableBoardUseCase {
    process_name: String,
    window_title: Option<String>,
    icon_name: Option<String>,
}

impl CreateDetectableBoardUseCase {
    /// The process name.
    pub closed spec fn process_spec(&self) -> Seq<char> {
        self.process_name@
    }

    /// The icon name the board gets.
    pub closed spec fn icon_spec(&self) -> Option<Seq<char>> {
        opt_view(self.icon_name)
    }

    /// The use case for a process, its window title and the icon name.
    pub fn new(process_name: String, window_title: Option<String>, icon_name: Option<String>) -> (r: Self)
        ensures
            r.process_spec() == process_name@,
            r.icon_spec() == opt_view(icon_name),
    {
        Self { process_name, window_title, icon_name }
    }

    /// The name of the board: the slug of the process name.
    pub fn board_name(&self) -> (r: String)
        ensures
            r@ == slug(self.process_spec()),
    {
        slugify_process_name(self.process_name.as_str())
    }

    /// Adds the process's board and its empty pad set, and gives the board back.
    /// Fails when a board of that name exists (changing nothing), or when a pad set
    /// of that name exists (after the board was added).
    pub fn create_board(&self, settings: &mut Settings) -> (r: Result<Board, String>)
        ensures
            board_named(old(settings), slug(self.process_spec())) is Some ==> (r matches Err(e) && e@
                == "A board for this process already exists"@ && *final(settings) == *old(settings)),
            board_named(old(settings), slug(self.process_spec())) is None ==> {
                &&& final(settings).boards_v() == old(settings).boards_v().push(
                    detectable_board(self.process_spec(), self.icon_spec()),
                )
                &&& crate::settings::validation::padset_names(old(settings).padsets_v()).contains(
                    slug(self.process_spec()),
                ) ==> (r matches Err(e) && e@ == "PadSet '"@ + slug(self.process_spec())
                    + "' already exists"@)
                &&& !crate::settings::validation::padset_names(old(settings).padsets_v()).contains(
                    slug(self.process_spec()),
                ) ==> (r matches Ok(b) && b@ == detectable_board(self.process_spec(), self.icon_spec())
                    && final(settings).padsets_v() == old(settings).padsets_v().push(
                    empty_padset(slug(self.process_spec())),
                ))
            },
    {
        let name = slugify_process_name(self.process_name.as_str());
        proof {
            lemma_name_position(board_names(settings.boards_v()), name@);
        }
        if settings.get_board(name.as_str()).is_ok() {
            return Err(owned("A board for this process already exists"));
        }
        proof {
            reveal_strlit(".exe");
            reveal_strlit("");
        }
        let chars = crate::text::string_chars(&self.process_name);
        let stripped = crate::text::replace_chars(&chars, &crate::text::chars_of(".exe"), &crate::text::chars_of(""));
        let stripped = crate::text::string_from_chars(&stripped);
        let keyword = to_lowercase(stripped.as_str());
        let icon = crate::domain::integration::clone_opt(&self.icon_name);
        let board = Board {
            board_type: BoardType::Static,
            name: name.clone(),
            title: Some(name.clone()),
            icon,
            detection: Detection::Win32(keyword),
            color_scheme: None,
            text_style: None,
            base_pads: Some(name.clone()),
            modifier_pads: Vec::new(),
        };
        assert(board@.modifier_pads =~= Seq::<(Seq<char>, Seq<char>)>::empty());
        assert(board@ == detectable_board(self.process_spec(), self.icon_spec()));
        add_board_with_padset(settings, board)
    }
}

/// The position of the last `c` in `s`, -1 when there is none.
pub open spec fn last_index_of(s: Seq<char>, c: char) -> int
    decreases s.len(),
{
    if s.len() == 0 {
        -1
    } else if s.last() == c {
        s.len() - 1
    } else {
        last_index_of(s.drop_last(), c)
    }
}

/// The position of the last `c` in `s`.
pub fn find_last(s: &Vec<char>, c: char) -> (r: Option<usize>)
    ensures
        match r {
            Some(k) => last_index_of(s@, c) == k && k < s@.len(),
            None => last_index_of(s@, c) == -1,
        },
{
    let mut last: Option<usize> = None;
    let mut i: usize = 0;
    while i < s.len()
        invariant
            i <= s@.len(),
            match last {
                Some(k) => last_index_of(s@.take(i as int), c) == k && k < i,
                None => last_index_of(s@.take(i as int), c) == -1,
            },
        decreases s.len() - i,
    {
        assert(s@.take(i + 1).drop_last() =~= s@.take(i as int));
        if s[i] == c {
            last = Some(i);
        }
        i = i + 1;
    }
    assert(s@.take(i as int) =~= s@);
    last
}

/// The board that the child board names its parent after: the part of `parent`
/// before its last `/` when that is a board, else `parent`.
pub open spec fn root_parent(s: &Settings, parent: Seq<char>) -> Seq<char> {
    if last_index_of(parent, '/') >= 0 && board_named(s, parent.take(last_index_of(parent, '/'))) is Some {
        parent.take(last_index_of(parent, '/'))
    } else {
        parent
    }
}

/// The name of a child board: its root parent, `/` and the slug of the keyword.
pub open spec fn child_name(s: &Settings, parent: Seq<char>, keyword: Seq<char>) -> Seq<char> {
    root_parent(s, parent) + "/"@ + slug(keyword)
}

/// The child board of `parent` for `keyword`: titled by the keyword, with the
/// parent's icon, color scheme and text style, showing the pad set of its own name.
pub open spec fn child_board(name: Seq<char>, keyword: Seq<char>, parent: BoardV) -> BoardV {
    BoardV {
        board_type: BoardTypeView::Static,
        name: name,
        title: Some(keyword),
        icon: parent.icon,
        detection: DetectionV::NoMatch,
        color_scheme: parent.color_scheme,
        text_style: parent.text_style,
        base_pads: Some(name),
        modifier_pads: Seq::empty(),
    }
}

/// What creating a board under `parent` for `keyword` does: see `create_board`.
pub open spec fn child_created(old: &Settings, new: &Settings, parent: Seq<char>, keyword: Seq<char>, r: Result<
    Board,
    String,
>) -> bool {
    let name = child_name(old, parent, keyword);
    let pb = board_named(old, parent);
    if board_named(old, name) is Some {
        r matches Err(e) && e@ == "A board with this name already exists"@ && *new == *old
    } else if pb is None {
        r matches Err(e) && e@ == "Parent board does not exist"@ && *new == *old
    } else if !(pb->0.board_type is Static) {
        r matches Err(e) && e@ == "Parent board must be of type Static"@ && *new == *old
    } else {
        &&& new.boards_v() == old.boards_v().push(child_board(name, keyword, pb->0))
        &&& crate::settings::validation::padset_names(old.padsets_v()).contains(name) ==> (r matches Err(e) && e@
            == "PadSet '"@ + name + "' already exists"@)
        &&& !crate::settings::validation::padset_names(old.padsets_v()).contains(name) ==> (r matches Ok(b) && b@
            == child_board(name, keyword, pb->0) && new.padsets_v() == old.padsets_v().push(empty_padset(name)))
    }
}

/// Creates a board under a static parent board (named `parent/keyword-slug`, or
/// under the parent's own parent when the parent's name holds a `/` and that
/// exists), with its empty pad set, and gives it back. Fails when such a board
/// exists, the parent does not exist or is not static (changing nothing), or a
/// pad set of that name exists (after the board was added).
pub fn create_board(settings: &mut Settings, parent_board: String, keyword: String) -> (r: Result<
    Board,
    String,
>)
    ensures
        child_created(old(settings), final(settings), parent_board@, keyword@, r),
{
    let pc = crate::text::string_chars(&parent_board);
    let root = match find_last(&pc, '/') {
        Some(k) => {
            let mut base: Vec<char> = Vec::new();
            let mut i: usize = 0;
            while i < k
                invariant
                    i <= k < pc@.len(),
                    base@ == pc@.take(i as int),
                decreases k - i,
            {
                base.push(pc[i]);
                i = i + 1;
                assert(base@ =~= pc@.take(i as int));
            }
            let base = crate::text::string_from_chars(&base);
            proof {
                lemma_name_position(board_names(settings.boards_v()), base@);
            }
            if settings.get_board(base.as_str()).is_ok() {
                base
            } else {
                parent_board.clone()
            }
        },
        None => parent_board.clone(),
    };
    let slugged = slugify_process_name(keyword.as_str());
    let name = concat3(root.as_str(), "/", slugged.as_str());
    proof {
        lemma_name_position(board_names(settings.boards_v()), name@);
        lemma_name_position(board_names(settings.boards_v()), parent_board@);
    }
    if settings.get_board(name.as_str()).is_ok() {
        return Err(owned("A board with this name already exists"));
    }
    let parent = match settings.get_board(parent_board.as_str()) {
        Ok(p) => p,
        Err(_) => {
            return Err(owned("Parent board does not exist"));
        },
    };
    match parent.board_type {
        BoardType::Static => {},
        _ => {
            return Err(owned("Parent board must be of type Static"));
        },
    }
    let board = Board {
        board_type: BoardType::Static,
        name: name.clone(),
        title: Some(keyword.clone()),
        icon: crate::domain::integration::clone_opt(&parent.icon),
        detection: Detection::NoMatch,
        color_scheme: crate::domain::integration::clone_opt(&parent.color_scheme),
        text_style: crate::domain::integration::clone_opt(&parent.text_style),
        base_pads: Some(name.clone()),
        modifier_pads: Vec::new(),
    };
    assert(board@.modifier_pads =~= Seq::<(Seq<char>, Seq<char>)>::empty());
    add_board_with_padset(settings, board)
}

/// The board lists `target` among the boards of its chain.
pub open spec fn lists_board(b: BoardV, target: Seq<char>) -> bool {
    match b.board_type {
        BoardTypeView::Chain(boards, _, _) => crate::domain::integration::chain_boards_spec(boards).contains(
            target,
        ),
        _ => false,
    }
}

/// The first board name, from position `i` on, whose board lists `target` in its
/// chain.
pub open spec fn first_listing_from(s: &Settings, target: Seq<char>, i: int) -> Option<Seq<char>>
    decreases s.boards_v().len() - i,
{
    if 0 <= i < s.boards_v().len() {
        let n = board_names(s.boards_v())[i];
        if board_named(s, n) is Some && lists_board(board_named(s, n)->0, target) {
            Some(n)
        } else {
            first_listing_from(s, target, i + 1)
        }
    } else {
        None
    }
}

/// The name of the first board whose chain lists `target`.
fn first_listing(settings: &Settings, target: &str) -> (r: Option<String>)
    ensures
        opt_view(r) == first_listing_from(settings, target@, 0),
{
    let names = settings.boards();
    let mut i: usize = 0;
    while i < names.len()
        invariant
            i <= names@.len(),
            strs_view(names@) == board_names(settings.boards_v()),
            first_listing_from(settings, target@, 0) == first_listing_from(settings, target@, i as int),
        decreases names.len() - i,
    {
        assert(strs_view(names@)[i as int] == names@[i as int]@);
        proof {
            lemma_name_position(board_names(settings.boards_v()), names@[i as int]@);
        }
        if let Ok(b) = settings.get_board(names[i].as_str()) {
            if let BoardType::Chain(params) = &b.board_type {
                let listed = params.boards();
                let found = crate::settings::validation::contains_name(&listed, listed.len(), target);
                assert(strs_view(listed@).take(listed@.len() as int) =~= strs_view(listed@));
                assert(strs_view(listed@) == crate::domain::integration::strings_view(listed@));
                if found {
                    return Some(names[i].clone());
                }
            }
        }
        i = i + 1;
    }
    None
}

/// Whether the board `name` can become a chain: not when it is one already, nor
/// when another board's chain lists it; the error says which.
pub open spec fn convert_check(s: &Settings, name: Seq<char>) -> Result<(), Seq<char>> {
    let b = board_named(s, name);
    if b is Some && b->0.board_type is Chain {
        Err("Board\n\""@ + name + "\"\nis already a Collection"@)
    } else if first_listing_from(s, name, 0) is Some {
        Err("Cannot convert\n\""@ + name + "\"\nas it is listed in\n\""@ + first_listing_from(s, name, 0)->0 + "\""@)
    } else {
        Ok(())
    }
}

/// Checks whether a board can become a board chain.
pub struct ConvertToBoardChainUseCase {
    board_name: String,
}

impl ConvertToBoardChainUseCase {
    /// The name of the board to convert.
    pub closed spec fn name_spec(&self) -> Seq<char> {
        self.board_name@
    }

    /// The name of the board.
    pub fn board_name(&self) -> (r: &str)
        ensures
            r@ == self.name_spec(),
    {
        self.board_name.as_str()
    }

    /// The use case for a board.
    pub fn new(board_name: String) -> (r: Self)
        ensures
            r.name_spec() == board_name@,
    {
        Self { board_name }
    }

    /// The board can become a chain unless it is one already, or another board's
    /// chain lists it.
    pub fn validate(&self, settings: &Settings) -> (r: Result<(), String>)
        ensures
            match r {
                Ok(_) => convert_check(settings, self.name_spec()) is Ok,
                Err(e) => convert_check(settings, self.name_spec()) == Err::<(), Seq<char>>(e@),
            },
    {
        proof {
            lemma_name_position(board_names(settings.boards_v()), self.name_spec());
        }
        if let Ok(board) = settings.get_board(self.board_name.as_str()) {
            if let BoardType::Chain(_) = &board.board_type {
                return Err(concat3("Board\n\"", self.board_name.as_str(), "\"\nis already a Collection"));
            }
        }
        match first_listing(settings, self.board_name.as_str()) {
            Some(other) => {
                let head = concat3("Cannot convert\n\"", self.board_name.as_str(), "\"\nas it is listed in\n\"");
                Err(concat(concat(head.as_str(), other.as_str()).as_str(), "\""))
            },
            None => Ok(()),
        }
    }
}


/// Some pad of the items refers to the board `target`.
pub open spec fn refers_to(items: Seq<crate::domain::data::PadV>, target: Seq<char>) -> bool {
    exists|j: int| 0 <= j < items.len() && items[j].board == Some(target)
}

/// The first pad set name, from position `i` on, whose pad set has a pad that
/// refers to the board `target`.
pub open spec fn first_referencing_from(s: &Settings, target: Seq<char>, i: int) -> Option<Seq<char>>
    decreases s.padsets_v().len() - i,
{
    if 0 <= i < s.padsets_v().len() {
        let n = crate::settings::validation::padset_names(s.padsets_v())[i];
        let ps = lookup(s.padsets_v(), crate::settings::validation::padset_names(s.padsets_v()), n);
        if ps is Some && refers_to(ps->0.items, target) {
            Some(n)
        } else {
            first_referencing_from(s, target, i + 1)
        }
    } else {
        None
    }
}

/// The name of the first pad set with a pad that refers to the board `target`.
fn first_referencing(settings: &Settings, target: &str) -> (r: Option<String>)
    ensures
        opt_view(r) == first_referencing_from(settings, target@, 0),
{
    let names = settings.padsets();
    let ghost pn = crate::settings::validation::padset_names(settings.padsets_v());
    let mut i: usize = 0;
    while i < names.len()
        invariant
            i <= names@.len(),
            strs_view(names@) == pn,
            pn == crate::settings::validation::padset_names(settings.padsets_v()),
            first_referencing_from(settings, target@, 0) == first_referencing_from(settings, target@, i as int),
        decreases names.len() - i,
    {
        assert(strs_view(names@)[i as int] == names@[i as int]@);
        proof {
            lemma_name_position(pn, names@[i as int]@);
        }
        if let Ok(ps) = settings.get_padset(names[i].as_str()) {
            let ghost items = ps@.items;
            let mut j: usize = 0;
            let mut found = false;
            while j < ps.items.len() && !found
                invariant
                    j <= ps.items@.len(),
                    items == ps@.items,
                    items.len() == ps.items@.len(),
                    found ==> refers_to(items, target@),
                    !found ==> forall|q: int| 0 <= q < j ==> items[q].board != Some(target@),
                decreases ps.items.len() - j,
            {
                assert(items[j as int] == ps.items@[j as int]@);
                match &ps.items[j].board {
                    Some(b) => {
                        if str_eq(b.as_str(), target) {
                            found = true;
                        }
                    },
                    None => {},
                }
                j = j + 1;
            }
            assert(!found ==> !refers_to(items, target@));
            if found {
                return Some(names[i].clone());
            }
        }
        i = i + 1;
    }
    None
}

/// Checks whether a board can be deleted.
pub struct DeleteBoardUseCase {
    board_name: String,
}

impl DeleteBoardUseCase {
    /// The name of the board to delete.
    pub closed spec fn name_spec(&self) -> Seq<char> {
        self.board_name@
    }

    /// The name of the board.
    pub fn board_name(&self) -> (r: &str)
        ensures
            r@ == self.name_spec(),
    {
        self.board_name.as_str()
    }

    /// The use case for a board.
    pub fn new(board_name: String) -> (r: Self)
        ensures
            r.name_spec() == board_name@,
    {
        Self { board_name }
    }

    /// The board can be deleted unless a pad refers to it or a board chain lists
    /// it.
    pub fn validate(&self, settings: &Settings) -> (r: Result<(), String>)
        ensures
            if first_referencing_from(settings, self.name_spec(), 0) is Some {
                r matches Err(e) && e@ == "Board\n\""@ + self.name_spec() + "\"\nis referenced by PadSet\n\""@
                    + first_referencing_from(settings, self.name_spec(), 0)->0 + "\""@
            } else if first_listing_from(settings, self.name_spec(), 0) is Some {
                r matches Err(e) && e@ == "Board \""@ + self.name_spec() + "\"\nis listed in Collection\n\""@
                    + first_listing_from(settings, self.name_spec(), 0)->0 + "\""@
            } else {
                r is Ok
            },
    {
        match first_referencing(settings, self.board_name.as_str()) {
            Some(ps) => {
                let head = concat3("Board\n\"", self.board_name.as_str(), "\"\nis referenced by PadSet\n\"");
                return Err(concat(concat(head.as_str(), ps.as_str()).as_str(), "\""));
            },
            None => {},
        }
        match first_listing(settings, self.board_name.as_str()) {
            Some(other) => {
                let head = concat3("Board \"", self.board_name.as_str(), "\"\nis listed in Collection\n\"");
                Err(concat(concat(head.as_str(), other.as_str()).as_str(), "\""))
            },
            None => Ok(()),
        }
    }
}

} // verus!
