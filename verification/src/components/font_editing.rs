//! The text style editor: which font it edits, how the up and down keys walk
//! through them, how a chosen font is written into the style, and saving it.
use vstd::prelude::*;
use crate::components::controls::{vk_code, vk_of};
use crate::components::events::{ChildWindowRequest, UiEvent, UiEventResult};
use crate::domain::data::{strs_view, TextStyle, TextStyleV};
use crate::input::keys::vkey::{VK_DARROW, VK_ENTER, VK_ESC, VK_S, VK_UARROW};
use crate::settings::persistence::styles_view;
use crate::settings::settings::{
    keeps_boards, keeps_options, keeps_padsets, keeps_schemes, lemma_name_position, name_position, Settings,
};
use crate::settings::validation::style_names;
use crate::text::str_eq;

verus! {

/// Which font of a text style the editor changes: one of the five fonts of a
/// board, or one of the first three palette fonts.
#[derive(Debug, Clone, Copy, PartialEq, Eq, Structural)]
pub enum FontMode {
    Header,
    PadHeader,
    PadText,
    PadId,
    Tag,
    Palette(i32),
}

/// A mode of the walk: any mode but a palette font beyond the first three.
pub open spec fn is_font_mode(m: FontMode) -> bool {
    match m {
        FontMode::Palette(i) => 0 <= i <= 2,
        _ => true,
    }
}

/// The mode after `m`: header, pad header, pad text, tag, pad number, the three
/// palette fonts, and the header again.
pub open spec fn next_font_mode(m: FontMode) -> FontMode {
    match m {
        FontMode::Header => FontMode::PadHeader,
        FontMode::PadHeader => FontMode::PadText,
        FontMode::PadText => FontMode::Tag,
        FontMode::Tag => FontMode::PadId,
        FontMode::PadId => FontMode::Palette(0),
        FontMode::Palette(i) => if i < 2 {
            FontMode::Palette((i + 1) as i32)
        } else {
            FontMode::Header
        },
    }
}

/// The mode before `m`, the last palette font before the header.
pub open spec fn prev_font_mode(m: FontMode) -> FontMode {
    match m {
        FontMode::Header => FontMode::Palette(2),
        FontMode::PadHeader => FontMode::Header,
        FontMode::PadText => FontMode::PadHeader,
        FontMode::Tag => FontMode::PadText,
        FontMode::PadId => FontMode::Tag,
        FontMode::Palette(i) => if i > 0 {
            FontMode::Palette((i - 1) as i32)
        } else {
            FontMode::PadId
        },
    }
}

/// The font of a style that a mode edits; a palette font the style does not
/// have is empty.
pub open spec fn font_of(ts: TextStyleV, m: FontMode) -> Seq<char> {
    match m {
        FontMode::Header => ts.header_font,
        FontMode::PadHeader => ts.pad_header_font,
        FontMode::PadText => ts.pad_text_font,
        FontMode::PadId => ts.pad_id_font,
        FontMode::Tag => ts.tag_font,
        FontMode::Palette(i) => if 0 <= i < 3 && i < ts.palette.len() {
            ts.palette[i as int]
        } else {
            Seq::empty()
        },
    }
}

/// The palette grown with empty fonts to hold position `i`.
pub open spec fn grown_palette(p: Seq<Seq<char>>, i: int) -> Seq<Seq<char>> {
    if p.len() <= i {
        p + Seq::new((i + 1 - p.len()) as nat, |j: int| Seq::<char>::empty())
    } else {
        p
    }
}

/// The style with the font of a mode set to `f`; the palette grows as needed.
pub open spec fn with_font(ts: TextStyleV, m: FontMode, f: Seq<char>) -> TextStyleV {
    match m {
        FontMode::Header => TextStyleV { header_font: f, ..ts },
        FontMode::PadHeader => TextStyleV { pad_header_font: f, ..ts },
        FontMode::PadText => TextStyleV { pad_text_font: f, ..ts },
        FontMode::PadId => TextStyleV { pad_id_font: f, ..ts },
        FontMode::Tag => TextStyleV { tag_font: f, ..ts },
        FontMode::Palette(i) => if 0 <= i < 3 {
            TextStyleV { palette: grown_palette(ts.palette, i as int).update(i as int, f), ..ts }
        } else {
            ts
        },
    }
}

impl FontMode {
    /// The mode after this one.
    pub fn next(&self) -> (r: FontMode)
        ensures
            r == next_font_mode(*self),
    {
        match *self {
            FontMode::Header => FontMode::PadHeader,
            FontMode::PadHeader => FontMode::PadText,
            FontMode::PadText => FontMode::Tag,
            FontMode::Tag => FontMode::PadId,
            FontMode::PadId => FontMode::Palette(0),
            FontMode::Palette(i) => if i < 2 {
                FontMode::Palette(i + 1)
            } else {
                FontMode::Header
            },
        }
    }

    /// The mode before this one.
    pub fn prev(&self) -> (r: FontMode)
        ensures
            r == prev_font_mode(*self),
    {
        match *self {
            FontMode::Header => FontMode::Palette(2),
            FontMode::PadHeader => FontMode::Header,
            FontMode::PadText => FontMode::PadHeader,
            FontMode::Tag => FontMode::PadText,
            FontMode::PadId => FontMode::Tag,
            FontMode::Palette(i) => if i > 0 {
                FontMode::Palette(i - 1)
            } else {
                FontMode::PadId
            },
        }
    }

    /// The font of the style that this mode edits.
    pub fn get_font(&self, text_style: &TextStyle) -> (r: String)
        ensures
            r@ == font_of(text_style@, *self),
    {
        match *self {
            FontMode::Header => text_style.header_font.clone(),
            FontMode::PadHeader => text_style.pad_header_font.clone(),
            FontMode::PadText => text_style.pad_text_font.clone(),
            FontMode::PadId => text_style.pad_id_font.clone(),
            FontMode::Tag => text_style.tag_font.clone(),
            FontMode::Palette(i) => {
                if 0 <= i && i < 3 && (i as usize) < text_style.palette.len() {
                    assert(strs_view(text_style.palette@)[i as int] == text_style.palette@[i as int]@);
                    text_style.palette[i as usize].clone()
                } else {
                    String::new()
                }
            },
        }
    }

    /// Sets the font of the style that this mode edits, growing the palette with
    /// empty fonts as needed.
    pub fn set_font(&self, text_style: &mut TextStyle, font: String)
        ensures
            final(text_style)@ == with_font(old(text_style)@, *self, font@),
    {
        match *self {
            FontMode::Header => text_style.header_font = font,
            FontMode::PadHeader => text_style.pad_header_font = font,
            FontMode::PadText => text_style.pad_text_font = font,
            FontMode::PadId => text_style.pad_id_font = font,
            FontMode::Tag => text_style.tag_font = font,
            FontMode::Palette(i) => {
                if 0 <= i && i < 3 {
                    set_palette_font(text_style, i as usize, font);
                }
            },
        }
    }
}

/// Sets the palette font at `k`, growing the palette with empty fonts as needed.
fn set_palette_font(text_style: &mut TextStyle, k: usize, font: String)
    requires
        k < 3,
    ensures
        final(text_style)@ == (TextStyleV {
            palette: grown_palette(old(text_style)@.palette, k as int).update(k as int, font@),
            ..old(text_style)@
        }),
{
    let ghost p0 = strs_view(text_style.palette@);
    while text_style.palette.len() <= k
        invariant
            k < 3,
            p0 == strs_view(old(text_style).palette@),
            text_style.name == old(text_style).name,
            text_style.header_font == old(text_style).header_font,
            text_style.pad_header_font == old(text_style).pad_header_font,
            text_style.pad_text_font == old(text_style).pad_text_font,
            text_style.pad_id_font == old(text_style).pad_id_font,
            text_style.tag_font == old(text_style).tag_font,
            p0.len() <= strs_view(text_style.palette@).len() <= if p0.len() <= k {
                k + 1
            } else {
                p0.len() as int
            },
            strs_view(text_style.palette@) == p0 + Seq::new(
                (text_style.palette@.len() - p0.len()) as nat,
                |j: int| Seq::<char>::empty(),
            ),
        decreases k + 1 - text_style.palette.len(),
    {
        let ghost before = strs_view(text_style.palette@);
        text_style.palette.push(String::new());
        assert(strs_view(text_style.palette@) =~= before.push(Seq::<char>::empty()));
        assert(strs_view(text_style.palette@) =~= p0 + Seq::new(
            (text_style.palette@.len() - p0.len()) as nat,
            |j: int| Seq::<char>::empty(),
        ));
    }
    assert(strs_view(text_style.palette@) =~= grown_palette(p0, k as int));
    let ghost grown = strs_view(text_style.palette@);
    text_style.palette.set(k, font);
    assert(strs_view(text_style.palette@) =~= grown.update(k as int, font@));
}

/// Whether two text styles are the same.
pub fn same_style(a: &TextStyle, b: &TextStyle) -> (r: bool)
    ensures
        r == (a@ == b@),
{
    let same_fonts = str_eq(a.name.as_str(), b.name.as_str()) && str_eq(a.header_font.as_str(), b.header_font.as_str())
        && str_eq(a.pad_header_font.as_str(), b.pad_header_font.as_str()) && str_eq(
        a.pad_text_font.as_str(),
        b.pad_text_font.as_str(),
    ) && str_eq(a.pad_id_font.as_str(), b.pad_id_font.as_str()) && str_eq(a.tag_font.as_str(), b.tag_font.as_str());
    if !same_fonts || a.palette.len() != b.palette.len() {
        proof {
            if a@ == b@ {
                assert(a@.name == b@.name);
                assert(a@.palette.len() == b@.palette.len());
            }
        }
        return false;
    }
    let mut i: usize = 0;
    while i < a.palette.len()
        invariant
            i <= a.palette@.len(),
            a.palette@.len() == b.palette@.len(),
            forall|k: int| 0 <= k < i ==> a.palette@[k]@ == b.palette@[k]@,
        decreases a.palette.len() - i,
    {
        if !str_eq(a.palette[i].as_str(), b.palette[i].as_str()) {
            assert(strs_view(a.palette@)[i as int] != strs_view(b.palette@)[i as int]);
            return false;
        }
        i = i + 1;
    }
    assert(strs_view(a.palette@) =~= strs_view(b.palette@));
    true
}

/// The text style editor: the style as saved, the style as edited, and the font
/// being edited.
pub struct FontEditState {
    pub original: TextStyle,
    pub text_style: TextStyle,
    pub mode: FontMode,
}

impl FontEditState {
    /// An editor of a style, on the pad text font.
    pub fn new(text_style: TextStyle) -> (r: Self)
        ensures
            r.original@ == text_style@,
            r.text_style@ == text_style@,
            r.mode == FontMode::PadText,
    {
        Self { original: text_style.clone(), text_style, mode: FontMode::PadText }
    }

    /// Whether the edited style differs from the saved one.
    pub fn is_dirty(&self) -> (r: bool)
        ensures
            r == (self.original@ != self.text_style@),
    {
        !same_style(&self.original, &self.text_style)
    }

    /// Handles an event: up and down change the font edited, enter asks for the
    /// font chooser, `s` saves the edited style into the settings, escape leaves.
    pub fn handle_ui_event(&mut self, settings: &mut Settings, event: UiEvent) -> (r: UiEventResult)
        ensures
            final(self).text_style@ == old(self).text_style@,
            match event {
                UiEvent::KeyDown(ke) => {
                    let vk = vk_of(ke.key);
                    if vk == VK_UARROW || vk == VK_DARROW {
                        r == UiEventResult::RequiresRedraw && *final(settings) == *old(settings) && final(self).original@ == old(self).original@ && final(self).mode == if vk == VK_DARROW {
                            next_font_mode(old(self).mode)
                        } else {
                            prev_font_mode(old(self).mode)
                        }
                    } else if vk == VK_S {
                        let names = style_names(old(settings).styles_v());
                        &&& r == UiEventResult::RequiresRedraw
                        &&& final(self).original@ == old(self).text_style@
                        &&& final(self).mode == old(self).mode
                        &&& name_position(names, old(self).text_style@.name) is Some ==> final(settings).styles_v()
                            == old(settings).styles_v().update(
                            name_position(names, old(self).text_style@.name)->0,
                            old(self).text_style@,
                        )
                        &&& name_position(names, old(self).text_style@.name) is Some ==> keeps_options(
                            old(settings),
                            final(settings),
                        ) && keeps_schemes(old(settings), final(settings)) && keeps_boards(old(settings), final(settings))
                            && keeps_padsets(old(settings), final(settings)) && final(settings).dirty_spec()
                        &&& name_position(names, old(self).text_style@.name) is None ==> *final(settings) == *old(settings)
                    } else {
                        *final(settings) == *old(settings) && final(self).original@ == old(self).original@
                            && final(self).mode == old(self).mode && r == if vk == VK_ENTER {
                            UiEventResult::RequestChildWindow(ChildWindowRequest::FontSelector)
                        } else if vk == VK_ESC {
                            UiEventResult::PopState
                        } else {
                            UiEventResult::NotHandled
                        }
                    }
                },
                _ => r == UiEventResult::NotHandled && *final(settings) == *old(settings) && final(self).original@
                    == old(self).original@ && final(self).mode == old(self).mode,
            },
    {
        match event {
            UiEvent::KeyDown(ke) => {
                let vk = vk_code(ke.key);
                if vk == VK_UARROW || vk == VK_DARROW {
                    if vk == VK_DARROW {
                        self.mode = self.mode.next();
                    } else {
                        self.mode = self.mode.prev();
                    }
                    UiEventResult::RequiresRedraw
                } else if vk == VK_S {
                    let ghost before = settings.data_spec().text_styles@;
                    let ghost k = name_position(style_names(settings.styles_v()), self.text_style@.name);
                    proof {
                        lemma_name_position(style_names(settings.styles_v()), self.text_style@.name);
                    }
                    let _ = settings.set_text_style(self.text_style.clone());
                    proof {
                        if k is Some {
                            assert(styles_view(before.update(k->0, settings.data_spec().text_styles@[k->0]))
                                =~= styles_view(before).update(k->0, settings.data_spec().text_styles@[k->0]@));
                        }
                    }
                    self.original = self.text_style.clone();
                    UiEventResult::RequiresRedraw
                } else if vk == VK_ENTER {
                    UiEventResult::RequestChildWindow(ChildWindowRequest::FontSelector)
                } else if vk == VK_ESC {
                    UiEventResult::PopState
                } else {
                    UiEventResult::NotHandled
                }
            },
            _ => UiEventResult::NotHandled,
        }
    }

    /// Takes the font chosen for the mode edited: with a font the style gets it
    /// and the board redraws; without one nothing changes.
    pub fn font_chosen(&mut self, font: Option<String>) -> (r: UiEventResult)
        ensures
            final(self).original@ == old(self).original@,
            final(self).mode == old(self).mode,
            match font {
                Some(f) => r == UiEventResult::RequiresRedraw && final(self).text_style@ == with_font(
                    old(self).text_style@,
                    old(self).mode,
                    f@,
                ),
                None => r == UiEventResult::NotHandled && final(self).text_style@ == old(self).text_style@,
            },
    {
        match font {
            Some(f) => {
                let m = self.mode;
                m.set_font(&mut self.text_style, f);
                UiEventResult::RequiresRedraw
            },
            None => UiEventResult::NotHandled,
        }
    }
}

/// Walking down and then up, or up and then down, comes back to the same font;
/// the walk never leaves the modes it starts in.
pub proof fn law_font_modes_inverse(m: FontMode)
    requires
        is_font_mode(m),
    ensures
        prev_font_mode(next_font_mode(m)) == m,
        next_font_mode(prev_font_mode(m)) == m,
        is_font_mode(next_font_mode(m)),
        is_font_mode(prev_font_mode(m)),
{
}

/// Reading the font a mode edits gives back what was just set, and setting it
/// leaves the fonts of the other modes as they were.
pub proof fn law_font_read_after_write(ts: TextStyleV, m: FontMode, other: FontMode, f: Seq<char>)
    requires
        is_font_mode(m),
        is_font_mode(other),
        m != other,
    ensures
        font_of(with_font(ts, m, f), m) == f,
        font_of(with_font(ts, m, f), other) == font_of(ts, other),
{
    if let FontMode::Palette(i) = m {
        let g = grown_palette(ts.palette, i as int);
        assert(g.len() > i);
        if let FontMode::Palette(j) = other {
            if j < ts.palette.len() {
                assert(g[j as int] == ts.palette[j as int]);
            } else if j < g.len() {
                assert(g[j as int] == Seq::<char>::empty());
            }
        }
    }
}

} // verus!
