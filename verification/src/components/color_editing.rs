//! Editing a color scheme: which color an editing mode changes, reading and
//! writing that color, the three-slider color editor, and the state of the mode
//! board (the scheme as saved, the scheme as edited, the mode).
use vstd::prelude::*;
use crate::components::controls::{slid, vk_code, vk_of, HSlider};
use crate::components::events::KeyboardEvent;
use crate::components::modes::{is_walked, next_mode, previous_mode, EditMode};
use crate::domain::data::{strs_view, ColorScheme, ColorSchemeV};
use crate::input::keys::vkey::{VK_DARROW, VK_E, VK_ENTER, VK_ESC, VK_LARROW, VK_RARROW, VK_S, VK_UARROW};
use crate::model::data::{
    color_or, fallback_background, fallback_foreground1, fallback_foreground2, fallback_tag, hex_color, hex_text,
    scheme_cuttable, Color,
};
use crate::settings::settings::{
    keeps_boards, keeps_options, keeps_padsets, keeps_styles, name_position, Settings,
};
use crate::settings::validation::scheme_names;
use crate::text::str_eq;

verus! {

/// A color of a scheme that the editor changes.
#[derive(Debug, Clone, Copy, PartialEq, Eq, Structural)]
pub enum SystemColor {
    Background,
    Text,
    Lines,
    Tag,
    PalleteR,
    PalleteG,
    PalleteB,
}

/// The color that an editing mode changes; the opacity mode changes no color.
pub open spec fn system_color_of_spec(m: EditMode) -> Option<SystemColor> {
    match m {
        EditMode::Background => Some(SystemColor::Background),
        EditMode::Text => Some(SystemColor::Text),
        EditMode::Lines => Some(SystemColor::Lines),
        EditMode::Tag => Some(SystemColor::Tag),
        EditMode::Palette(i) => if i == 0 {
            Some(SystemColor::PalleteR)
        } else if i == 1 {
            Some(SystemColor::PalleteG)
        } else {
            Some(SystemColor::PalleteB)
        },
        EditMode::Opacity => None,
    }
}

/// The color that an editing mode other than the opacity changes.
pub fn system_color_of(m: EditMode) -> (r: SystemColor)
    requires
        is_walked(m),
        m != EditMode::Opacity,
    ensures
        system_color_of_spec(m) == Some(r),
{
    match m {
        EditMode::Background => SystemColor::Background,
        EditMode::Text => SystemColor::Text,
        EditMode::Lines => SystemColor::Lines,
        EditMode::Tag => SystemColor::Tag,
        EditMode::Palette(i) => if i == 0 {
            SystemColor::PalleteR
        } else if i == 1 {
            SystemColor::PalleteG
        } else {
            SystemColor::PalleteB
        },
        EditMode::Opacity => SystemColor::Background,
    }
}

/// A palette color of the scheme, or the text color where the palette has no
/// readable color there.
pub open spec fn palette_or_text(cs: ColorSchemeV, i: int) -> Color {
    if i < cs.palette.len() && hex_color(cs.palette[i]) is Some {
        hex_color(cs.palette[i])->0
    } else {
        color_or(cs.foreground2, fallback_foreground2())
    }
}

/// The current value of a scheme's color.
pub open spec fn system_color_value(s: SystemColor, cs: ColorSchemeV) -> Color {
    match s {
        SystemColor::Background => color_or(cs.background, fallback_background()),
        SystemColor::Text => color_or(cs.foreground2, fallback_foreground2()),
        SystemColor::Lines => color_or(cs.foreground1, fallback_foreground1()),
        SystemColor::Tag => color_or(cs.tag_foreground, fallback_tag()),
        SystemColor::PalleteR => palette_or_text(cs, 0),
        SystemColor::PalleteG => palette_or_text(cs, 1),
        SystemColor::PalleteB => palette_or_text(cs, 2),
    }
}

/// The palette with entry `i` replaced by `t`, where there is such an entry.
pub open spec fn palette_set(p: Seq<Seq<char>>, i: int, t: Seq<char>) -> Seq<Seq<char>> {
    if i < p.len() {
        p.update(i, t)
    } else {
        p
    }
}

/// The scheme with a color set, written as hex text.
pub open spec fn with_system_color(s: SystemColor, cs: ColorSchemeV, c: Color) -> ColorSchemeV {
    match s {
        SystemColor::Background => ColorSchemeV { background: hex_text(c), ..cs },
        SystemColor::Text => ColorSchemeV { foreground2: hex_text(c), ..cs },
        SystemColor::Lines => ColorSchemeV { foreground1: hex_text(c), ..cs },
        SystemColor::Tag => ColorSchemeV { tag_foreground: hex_text(c), ..cs },
        SystemColor::PalleteR => ColorSchemeV { palette: palette_set(cs.palette, 0, hex_text(c)), ..cs },
        SystemColor::PalleteG => ColorSchemeV { palette: palette_set(cs.palette, 1, hex_text(c)), ..cs },
        SystemColor::PalleteB => ColorSchemeV { palette: palette_set(cs.palette, 2, hex_text(c)), ..cs },
    }
}

impl SystemColor {
    /// The current value of this color of the scheme.
    pub fn to_color(&self, cs: &ColorScheme) -> (r: Color)
        requires
            scheme_cuttable(cs@),
        ensures
            r == system_color_value(*self, cs@),
    {
        proof {
            if cs@.palette.len() > 0 {
                assert(crate::model::data::hex_cuttable(cs@.palette[0]));
            }
            if cs@.palette.len() > 1 {
                assert(crate::model::data::hex_cuttable(cs@.palette[1]));
            }
            if cs@.palette.len() > 2 {
                assert(crate::model::data::hex_cuttable(cs@.palette[2]));
            }
        }
        match self {
            SystemColor::Background => cs.background(),
            SystemColor::Text => cs.foreground2(),
            SystemColor::Lines => cs.foreground1(),
            SystemColor::Tag => cs.tag_foreground(),
            SystemColor::PalleteR => palette_or(cs, 0),
            SystemColor::PalleteG => palette_or(cs, 1),
            SystemColor::PalleteB => palette_or(cs, 2),
        }
    }

    /// Sets this color of the scheme, as hex text; a palette entry only where the
    /// palette has it.
    pub fn set_color(&self, cs: &mut ColorScheme, color: &Color)
        ensures
            final(cs)@ == with_system_color(*self, old(cs)@, *color),
    {
        let hex = color.to_hex();
        match self {
            SystemColor::Background => cs.background = hex,
            SystemColor::Text => cs.foreground2 = hex,
            SystemColor::Lines => cs.foreground1 = hex,
            SystemColor::Tag => cs.tag_foreground = hex,
            SystemColor::PalleteR => set_palette(cs, 0, hex),
            SystemColor::PalleteG => set_palette(cs, 1, hex),
            SystemColor::PalleteB => set_palette(cs, 2, hex),
        }
    }
}

/// The palette color at `i`, or the text color where there is none that reads.
fn palette_or(cs: &ColorScheme, i: usize) -> (r: Color)
    requires
        scheme_cuttable(cs@),
        i < 3,
    ensures
        r == palette_or_text(cs@, i as int),
{
    proof {
        if i < cs@.palette.len() {
            assert(cs@.palette[i as int] == cs.palette@[i as int]@);
            assert(crate::model::data::hex_cuttable(cs@.palette[i as int]));
        }
    }
    let fallback = cs.foreground2();
    match cs.palette_color(i) {
        Some(c) => c,
        None => fallback,
    }
}

/// Replaces palette entry `i` by `hex`, where the palette has it.
fn set_palette(cs: &mut ColorScheme, i: usize, hex: String)
    ensures
        final(cs)@ == (ColorSchemeV { palette: palette_set(old(cs)@.palette, i as int, hex@), ..old(cs)@ }),
{
    if i < cs.palette.len() {
        let ghost before = cs.palette@;
        cs.palette[i] = hex;
        assert(strs_view(cs.palette@) =~= strs_view(before).update(i as int, hex@));
    }
}

/// The component of a color that the sliders change.
#[derive(Debug, Clone, Copy, PartialEq, Eq, Structural)]
pub enum ColorComponent {
    R,
    G,
    B,
}

/// The component after up (backwards) or down (forwards), wrapping around.
pub open spec fn component_after(c: ColorComponent, down: bool) -> ColorComponent {
    match c {
        ColorComponent::R => if down {
            ColorComponent::G
        } else {
            ColorComponent::B
        },
        ColorComponent::G => if down {
            ColorComponent::B
        } else {
            ColorComponent::R
        },
        ColorComponent::B => if down {
            ColorComponent::R
        } else {
            ColorComponent::G
        },
    }
}

/// What the color editor asks for after a key.
#[derive(Debug, Clone, Copy, PartialEq, Eq, Structural)]
pub enum ColorEditorAction {
    NotHandled,
    Redraw,
    /// Done: hand back the scheme with the edited color (see `edited_scheme`).
    Accept,
    /// Leave without a change.
    Cancel,
    /// Open the system's color picker.
    OpenPicker,
}

/// The color after an arrow on a component: its slider's step of one (ten with
/// shift), kept between 0 and 255.
pub open spec fn color_after(c: Color, comp: ColorComponent, right: bool, shift: bool) -> Color {
    match comp {
        ColorComponent::R => Color { r: slid(c.r as int, 0, 255, 1, right, shift) as u8, ..c },
        ColorComponent::G => Color { g: slid(c.g as int, 0, 255, 1, right, shift) as u8, ..c },
        ColorComponent::B => Color { b: slid(c.b as int, 0, 255, 1, right, shift) as u8, ..c },
    }
}

/// The three-slider editor of one color of a scheme.
pub struct ColorEditor {
    pub color: Color,
    pub system_color: SystemColor,
    pub cur_component: ColorComponent,
}

impl ColorEditor {
    /// An editor of `color`, the `system_color` of a scheme, starting on red.
    pub fn new(color: Color, system_color: SystemColor) -> (r: Self)
        ensures
            r.color == color,
            r.system_color == system_color,
            r.cur_component == ColorComponent::R,
    {
        Self { color, system_color, cur_component: ColorComponent::R }
    }

    /// Handles a key: up and down pick the component, left and right slide it,
    /// enter accepts, escape cancels, `e` opens the color picker.
    pub fn key_down(&mut self, event: KeyboardEvent) -> (r: ColorEditorAction)
        ensures
            final(self).system_color == old(self).system_color,
            ({
                let vk = vk_of(event.key);
                if vk == VK_UARROW || vk == VK_DARROW {
                    r == ColorEditorAction::Redraw && final(self).color == old(self).color
                        && final(self).cur_component == component_after(old(self).cur_component, vk == VK_DARROW)
                } else if vk == VK_LARROW || vk == VK_RARROW {
                    r == ColorEditorAction::Redraw && final(self).cur_component == old(self).cur_component
                        && final(self).color == color_after(
                        old(self).color,
                        old(self).cur_component,
                        vk == VK_RARROW,
                        event.modifiers.shift,
                    )
                } else {
                    final(self).color == old(self).color && final(self).cur_component == old(self).cur_component
                        && r == if vk == VK_ENTER {
                        ColorEditorAction::Accept
                    } else if vk == VK_ESC {
                        ColorEditorAction::Cancel
                    } else if vk == VK_E {
                        ColorEditorAction::OpenPicker
                    } else {
                        ColorEditorAction::NotHandled
                    }
                }
            }),
    {
        let vk = vk_code(event.key);
        if vk == VK_UARROW || vk == VK_DARROW {
            let down = vk == VK_DARROW;
            self.cur_component = match self.cur_component {
                ColorComponent::R => if down {
                    ColorComponent::G
                } else {
                    ColorComponent::B
                },
                ColorComponent::G => if down {
                    ColorComponent::B
                } else {
                    ColorComponent::R
                },
                ColorComponent::B => if down {
                    ColorComponent::R
                } else {
                    ColorComponent::G
                },
            };
            ColorEditorAction::Redraw
        } else if vk == VK_LARROW || vk == VK_RARROW {
            let value = match self.cur_component {
                ColorComponent::R => self.color.r,
                ColorComponent::G => self.color.g,
                ColorComponent::B => self.color.b,
            };
            let mut slider = HSlider::new(crate::text::owned(""), value as i32, 0, 255, 1);
            slider.key_down(event);
            let v = slider.value();
            assert(0 <= v <= 255);
            match self.cur_component {
                ColorComponent::R => self.color.r = v as u8,
                ColorComponent::G => self.color.g = v as u8,
                ColorComponent::B => self.color.b = v as u8,
            }
            ColorEditorAction::Redraw
        } else if vk == VK_ENTER {
            ColorEditorAction::Accept
        } else if vk == VK_ESC {
            ColorEditorAction::Cancel
        } else if vk == VK_E {
            ColorEditorAction::OpenPicker
        } else {
            ColorEditorAction::NotHandled
        }
    }

    /// The scheme `base` with the edited color set.
    pub fn edited_scheme(&self, base: &ColorScheme) -> (r: ColorScheme)
        ensures
            r@ == with_system_color(self.system_color, base@, self.color),
    {
        let mut cs = base.clone();
        self.system_color.set_color(&mut cs, &self.color);
        cs
    }
}

/// Two schemes are the same in every field.
pub fn same_scheme(a: &ColorScheme, b: &ColorScheme) -> (r: bool)
    ensures
        r == (a@ == b@),
{
    if !str_eq(a.name.as_str(), b.name.as_str()) || a.opacity != b.opacity || !str_eq(
        a.background.as_str(),
        b.background.as_str(),
    ) || !str_eq(a.foreground1.as_str(), b.foreground1.as_str()) || !str_eq(
        a.foreground2.as_str(),
        b.foreground2.as_str(),
    ) || !str_eq(a.tag_foreground.as_str(), b.tag_foreground.as_str()) || a.palette.len() != b.palette.len() {
        return false;
    }
    let mut i: usize = 0;
    while i < a.palette.len()
        invariant
            i <= a.palette@.len(),
            a.palette@.len() == b.palette@.len(),
            forall|k: int| 0 <= k < i ==> a.palette@[k]@ == b.palette@[k]@,
        decreases a.palette.len() - i,
    {
        if !str_eq(a.palette[i].as_str(), b.palette[i].as_str()) {
            assert(strs_view(a.palette@)[i as int] != strs_view(b.palette@)[i as int]);
            return false;
        }
        i = i + 1;
    }
    assert(strs_view(a.palette@) =~= strs_view(b.palette@));
    true
}

/// What the mode board asks for after a key.
#[derive(Debug, Clone, Copy, PartialEq, Eq, Structural)]
pub enum EditModeAction {
    NotHandled,
    Redraw,
    /// Open the opacity editor.
    OpenOpacity,
    /// Open the color editor on this color.
    OpenColor(SystemColor),
    /// Leave without saving.
    Pop,
}

/// The mode board of the color scheme editor: the scheme as saved, the scheme as
/// edited, and the editing mode.
pub struct EditModeState {
    pub original: ColorScheme,
    pub current: ColorScheme,
    pub mode: EditMode,
}

impl EditModeState {
    /// Editing `cs`, starting on the background.
    pub fn new(cs: ColorScheme) -> (r: Self)
        ensures
            r.original@ == cs@,
            r.current@ == cs@,
            r.mode == EditMode::Background,
    {
        Self { original: cs.clone(), current: cs, mode: EditMode::Background }
    }

    /// The edited scheme differs from the saved one.
    pub fn is_dirty(&self) -> (r: bool)
        ensures
            r == (self.original@ != self.current@),
    {
        !same_scheme(&self.original, &self.current)
    }

    /// Takes the scheme that an editor handed back.
    pub fn take_result(&mut self, cs: ColorScheme)
        ensures
            final(self).current@ == cs@,
            final(self).original@ == old(self).original@,
            final(self).mode == old(self).mode,
    {
        self.current = cs;
    }

    /// Handles a key: up and down change the mode, `s` saves the edited scheme
    /// into the settings, enter opens the editor of the mode, escape leaves.
    pub fn key_down(&mut self, settings: &mut Settings, key: u32) -> (r: EditModeAction)
        requires
            is_walked(old(self).mode),
        ensures
            is_walked(final(self).mode),
            final(self).current@ == old(self).current@,
            ({
                let vk = vk_of(key);
                if vk == VK_UARROW || vk == VK_DARROW {
                    r == EditModeAction::Redraw && *final(settings) == *old(settings) && final(self).original@ == old(
                        self,
                    ).original@ && final(self).mode == if vk == VK_DARROW {
                        next_mode(old(self).mode)
                    } else {
                        previous_mode(old(self).mode)
                    }
                } else if vk == VK_S {
                    let names = scheme_names(old(settings).schemes_v());
                    &&& r == EditModeAction::Redraw
                    &&& final(self).original@ == old(self).current@
                    &&& final(self).mode == old(self).mode
                    &&& name_position(names, old(self).current@.name) is Some ==> final(settings).schemes_v()
                        == old(settings).schemes_v().update(
                        name_position(names, old(self).current@.name)->0,
                        old(self).current@,
                    )
                    &&& name_position(names, old(self).current@.name) is Some ==> keeps_options(old(settings), final(settings))
                        && keeps_styles(old(settings), final(settings)) && keeps_boards(old(settings), final(settings))
                        && keeps_padsets(old(settings), final(settings)) && final(settings).dirty_spec()
                    &&& name_position(names, old(self).current@.name) is None ==> *final(settings) == *old(settings)
                } else {
                    *final(settings) == *old(settings) && final(self).original@ == old(self).original@
                        && final(self).mode == old(self).mode && r == if vk == VK_ENTER {
                        match system_color_of_spec(old(self).mode) {
                            Some(s) => EditModeAction::OpenColor(s),
                            None => EditModeAction::OpenOpacity,
                        }
                    } else if vk == VK_ESC {
                        EditModeAction::Pop
                    } else {
                        EditModeAction::NotHandled
                    }
                }
            }),
    {
        proof {
            crate::components::modes::law_walk_positions(self.mode);
        }
        let vk = vk_code(key);
        if vk == VK_UARROW || vk == VK_DARROW {
            if vk == VK_DARROW {
                self.mode = self.mode.next();
            } else {
                self.mode = self.mode.previous();
            }
            EditModeAction::Redraw
        } else if vk == VK_S {
            let ghost before = settings.data_spec().color_schemes@;
            let ghost k = name_position(scheme_names(settings.schemes_v()), self.current@.name);
            proof {
                crate::settings::settings::lemma_name_position(
                    scheme_names(settings.schemes_v()),
                    self.current@.name,
                );
            }
            let _ = settings.set_color_scheme(self.current.clone());
            proof {
                if k is Some {
                    assert(crate::settings::persistence::schemes_view(
                        before.update(k->0, settings.data_spec().color_schemes@[k->0]),
                    ) =~= crate::settings::persistence::schemes_view(before).update(
                        k->0,
                        settings.data_spec().color_schemes@[k->0]@,
                    ));
                }
            }
            self.original = self.current.clone();
            EditModeAction::Redraw
        } else if vk == VK_ENTER {
            match self.mode {
                EditMode::Opacity => EditModeAction::OpenOpacity,
                _ => EditModeAction::OpenColor(system_color_of(self.mode)),
            }
        } else if vk == VK_ESC {
            EditModeAction::Pop
        } else {
            EditModeAction::NotHandled
        }
    }
}

} // verus!
