//! Boards, pad sets, pads, color schemes and text styles as stored in the settings.
use vstd::prelude::*;
use super::integration::{
    action_view, board_type_view, clone_opt, clone_params, opt_view, params_view, ActionType,
    ActionView, BoardType, BoardTypeView, Param,
};
use crate::text::{
    chars_of, contains_chars, contains_seq, lowercase_of, owned, string_chars, to_lowercase,
};

verus! {

/// Name of the default color scheme.
pub const DEFAULT_SCHEME: &'static str = "default";
/// Name of the default text style.
pub const DEFAULT_TEXT_STYLE: &'static str = "default";
/// Opacity of the default color scheme, as the bit pattern of the `f64` 0.80.
pub const DEFAULT_OPACITY_BITS: u64 = 0x3fe999999999999a;
/// Default background color.
pub const DEFAULT_BACKGROUND: &'static str = "#00007f";
/// Default line color.
pub const DEFAULT_FOREGROUND1: &'static str = "#6464b4";
/// Default text color.
pub const DEFAULT_FOREGROUND2: &'static str = "#dbdbec";
/// Default tag color.
pub const DEFAULT_TAG_COLOR: &'static str = "#dbdbec";
/// Default font of board headers.
pub const DEFAULT_HEADER_FONT: &'static str = "Comic Sans MS Bold 36";
/// Default font of pad headers.
pub const DEFAULT_PAD_HEADER_FONT: &'static str = "Consolas 20";
/// Default font of pad texts.
pub const DEFAULT_PAD_TEXT_FONT: &'static str = "Comic Sans MS Bold 26";
/// Default font of pad numbers.
pub const DEFAULT_PAD_ID_FONT: &'static str = "Nirmala UI 18";
/// Default font of tags.
pub const DEFAULT_TAG_FONT: &'static str = "Consolas Bold 18";
/// Seconds a board stays open by default.
pub const DEFAULT_TIMEOUT: u64 = 4;
/// Milliseconds of selection feedback by default.
pub const DEFAULT_FEEDBACK: u64 = 0;
/// Name of the home board.
pub const HOME_BOARD_NAME: &'static str = "home";
/// Editor that opens the settings by default.
pub const DEFAULT_EDITOR: &'static str = "notepad.exe";

/// The views of a list of strings.
pub open spec fn strs_view(v: Seq<String>) -> Seq<Seq<char>> {
    v.map_values(|s: String| s@)
}

/// A copy of a list of strings.
pub fn clone_strings(v: &Vec<String>) -> (r: Vec<String>)
    ensures
        strs_view(r@) == strs_view(v@),
{
    let mut out: Vec<String> = Vec::new();
    let mut i: usize = 0;
    while i < v.len()
        invariant
            i <= v@.len(),
            out@.len() == i,
            forall|k: int| 0 <= k < i ==> #[trigger] out@[k]@ == v@[k]@,
        decreases v.len() - i,
    {
        out.push(v[i].clone());
        i = i + 1;
    }
    assert(strs_view(out@) =~= strs_view(v@));
    out
}

/// Colors of a board. The opacity is kept as the bit pattern of an `f64`.
#[derive(Debug)]
pub struct ColorScheme {
    pub name: String,
    pub opacity: u64,
    pub background: String,
    pub foreground1: String,
    pub foreground2: String,
    pub tag_foreground: String,
    pub palette: Vec<String>,
}

/// What a color scheme stands for.
pub struct ColorSchemeV {
    pub name: Seq<char>,
    pub opacity: u64,
    pub background: Seq<char>,
    pub foreground1: Seq<char>,
    pub foreground2: Seq<char>,
    pub tag_foreground: Seq<char>,
    pub palette: Seq<Seq<char>>,
}

impl View for ColorScheme {
    type V = ColorSchemeV;

    open spec fn view(&self) -> ColorSchemeV {
        ColorSchemeV {
            name: self.name@,
            opacity: self.opacity,
            background: self.background@,
            foreground1: self.foreground1@,
            foreground2: self.foreground2@,
            tag_foreground: self.tag_foreground@,
            palette: strs_view(self.palette@),
        }
    }
}

impl Clone for ColorScheme {
    fn clone(&self) -> (r: Self)
        ensures
            r@ == self@,
    {
        ColorScheme {
            name: self.name.clone(),
            opacity: self.opacity,
            background: self.background.clone(),
            foreground1: self.foreground1.clone(),
            foreground2: self.foreground2.clone(),
            tag_foreground: self.tag_foreground.clone(),
            palette: clone_strings(&self.palette),
        }
    }
}

impl ColorScheme {
    /// The default color scheme.
    pub open spec fn default_view() -> ColorSchemeV {
        ColorSchemeV {
            name: DEFAULT_SCHEME@,
            opacity: DEFAULT_OPACITY_BITS,
            background: DEFAULT_BACKGROUND@,
            foreground1: DEFAULT_FOREGROUND1@,
            foreground2: DEFAULT_FOREGROUND2@,
            tag_foreground: DEFAULT_TAG_COLOR@,
            palette: Seq::empty(),
        }
    }
}

impl Default for ColorScheme {
    fn default() -> (r: Self)
        ensures
            r@ == (ColorSchemeV {
                name: DEFAULT_SCHEME@,
                opacity: DEFAULT_OPACITY_BITS,
                background: DEFAULT_BACKGROUND@,
                foreground1: DEFAULT_FOREGROUND1@,
                foreground2: DEFAULT_FOREGROUND2@,
                tag_foreground: DEFAULT_TAG_COLOR@,
                palette: Seq::empty(),
            }),
    {
        let r = ColorScheme {
            name: owned(DEFAULT_SCHEME),
            opacity: DEFAULT_OPACITY_BITS,
            background: owned(DEFAULT_BACKGROUND),
            foreground1: owned(DEFAULT_FOREGROUND1),
            foreground2: owned(DEFAULT_FOREGROUND2),
            tag_foreground: owned(DEFAULT_TAG_COLOR),
            palette: Vec::new(),
        };
        assert(strs_view(r.palette@) =~= Seq::<Seq<char>>::empty());
        r
    }
}

/// Fonts of a board, each written like "Consolas Bold 14".
#[derive(Debug)]
pub struct TextStyle {
    pub name: String,
    pub header_font: String,
    pub pad_header_font: String,
    pub pad_text_font: String,
    pub pad_id_font: String,
    pub tag_font: String,
    pub palette: Vec<String>,
}

/// What a text style stands for.
pub struct TextStyleV {
    pub name: Seq<char>,
    pub header_font: Seq<char>,
    pub pad_header_font: Seq<char>,
    pub pad_text_font: Seq<char>,
    pub pad_id_font: Seq<char>,
    pub tag_font: Seq<char>,
    pub palette: Seq<Seq<char>>,
}

impl View for TextStyle {
    type V = TextStyleV;

    open spec fn view(&self) -> TextStyleV {
        TextStyleV {
            name: self.name@,
            header_font: self.header_font@,
            pad_header_font: self.pad_header_font@,
            pad_text_font: self.pad_text_font@,
            pad_id_font: self.pad_id_font@,
            tag_font: self.tag_font@,
            palette: strs_view(self.palette@),
        }
    }
}

impl Clone for TextStyle {
    fn clone(&self) -> (r: Self)
        ensures
            r@ == self@,
    {
        TextStyle {
            name: self.name.clone(),
            header_font: self.header_font.clone(),
            pad_header_font: self.pad_header_font.clone(),
            pad_text_font: self.pad_text_font.clone(),
            pad_id_font: self.pad_id_font.clone(),
            tag_font: self.tag_font.clone(),
            palette: clone_strings(&self.palette),
        }
    }
}

impl TextStyle {
    /// The default text style.
    pub open spec fn default_view() -> TextStyleV {
        TextStyleV {
            name: DEFAULT_TEXT_STYLE@,
            header_font: DEFAULT_HEADER_FONT@,
            pad_header_font: DEFAULT_PAD_HEADER_FONT@,
            pad_text_font: DEFAULT_PAD_TEXT_FONT@,
            pad_id_font: DEFAULT_PAD_ID_FONT@,
            tag_font: DEFAULT_TAG_FONT@,
            palette: Seq::empty(),
        }
    }
}

impl Default for TextStyle {
    fn default() -> (r: Self)
        ensures
            r@ == (TextStyleV {
                name: DEFAULT_TEXT_STYLE@,
                header_font: DEFAULT_HEADER_FONT@,
                pad_header_font: DEFAULT_PAD_HEADER_FONT@,
                pad_text_font: DEFAULT_PAD_TEXT_FONT@,
                pad_id_font: DEFAULT_PAD_ID_FONT@,
                tag_font: DEFAULT_TAG_FONT@,
                palette: Seq::empty(),
            }),
    {
        let r = TextStyle {
            name: owned(DEFAULT_TEXT_STYLE),
            header_font: owned(DEFAULT_HEADER_FONT),
            pad_header_font: owned(DEFAULT_PAD_HEADER_FONT),
            pad_text_font: owned(DEFAULT_PAD_TEXT_FONT),
            pad_id_font: owned(DEFAULT_PAD_ID_FONT),
            tag_font: owned(DEFAULT_TAG_FONT),
            palette: Vec::new(),
        };
        assert(strs_view(r.palette@) =~= Seq::<Seq<char>>::empty());
        r
    }
}

/// How a board is matched to the application in the foreground.
#[derive(Debug)]
pub enum Detection {
    /// The process name contains this keyword (case-insensitively).
    Win32(String),
    /// The board is never matched.
    NoMatch,
}

/// What a detection stands for.
pub enum DetectionV {
    Win32(Seq<char>),
    NoMatch,
}

impl View for Detection {
    type V = DetectionV;

    open spec fn view(&self) -> DetectionV {
        match self {
            Detection::Win32(k) => DetectionV::Win32(k@),
            Detection::NoMatch => DetectionV::NoMatch,
        }
    }
}

impl Clone for Detection {
    fn clone(&self) -> (r: Self)
        ensures
            r@ == self@,
    {
        match self {
            Detection::Win32(k) => Detection::Win32(k.clone()),
            Detection::NoMatch => Detection::NoMatch,
        }
    }
}

impl Default for Detection {
    fn default() -> (r: Self)
        ensures
            r is NoMatch,
    {
        Detection::NoMatch
    }
}

/// A process named `process` matches a detection.
pub open spec fn detection_matches(d: DetectionV, process: Seq<char>) -> bool {
    match d {
        DetectionV::Win32(keyword) => contains_seq(lowercase_of(process), lowercase_of(keyword)),
        DetectionV::NoMatch => false,
    }
}

impl Detection {
    /// The process name contains the keyword, ignoring case; never for `NoMatch`.
    pub fn is_match(&self, process_name: &str) -> (r: bool)
        ensures
            r == detection_matches(self@, process_name@),
    {
        match self {
            Detection::Win32(keyword) => {
                let p = to_lowercase(process_name);
                let k = to_lowercase(keyword.as_str());
                let pc = string_chars(&p);
                let kc = string_chars(&k);
                contains_chars(&pc, &kc)
            },
            Detection::NoMatch => false,
        }
    }
}

/// The kind of a pad set; there is only the static kind.
#[derive(Debug, Clone, Copy, PartialEq, Eq, Structural)]
pub enum PadSetType {
    Static,
}

impl PadSetType {
    /// The pad set is static.
    pub fn is_static(&self) -> (r: bool)
        ensures
            r,
    {
        match self {
            PadSetType::Static => true,
        }
    }
}

impl Default for PadSetType {
    fn default() -> (r: Self)
        ensures
            r == PadSetType::Static,
    {
        PadSetType::Static
    }
}

/// One pad as stored: texts, icon, actions, the board it opens and its styling.
#[derive(Debug)]
pub struct Pad {
    pub header: Option<String>,
    pub text: Option<String>,
    pub icon: Option<String>,
    pub actions: Vec<ActionType>,
    pub board: Option<String>,
    pub board_params: Vec<Param>,
    pub color_scheme: Option<String>,
    pub text_style: Option<String>,
}

/// What a stored pad stands for.
pub struct PadV {
    pub header: Option<Seq<char>>,
    pub text: Option<Seq<char>>,
    pub icon: Option<Seq<char>>,
    pub actions: Seq<ActionView>,
    pub board: Option<Seq<char>>,
    pub board_params: Seq<(Seq<char>, Seq<char>)>,
    pub color_scheme: Option<Seq<char>>,
    pub text_style: Option<Seq<char>>,
}

/// The views of a list of actions.
pub open spec fn actions_view(v: Seq<ActionType>) -> Seq<ActionView> {
    v.map_values(|a: ActionType| action_view(a))
}

impl View for Pad {
    type V = PadV;

    open spec fn view(&self) -> PadV {
        PadV {
            header: opt_view(self.header),
            text: opt_view(self.text),
            icon: opt_view(self.icon),
            actions: actions_view(self.actions@),
            board: opt_view(self.board),
            board_params: params_view(self.board_params@),
            color_scheme: opt_view(self.color_scheme),
            text_style: opt_view(self.text_style),
        }
    }
}

/// A copy of a list of actions.
pub fn clone_actions(v: &Vec<ActionType>) -> (r: Vec<ActionType>)
    ensures
        actions_view(r@) == actions_view(v@),
{
    let mut out: Vec<ActionType> = Vec::new();
    let mut i: usize = 0;
    while i < v.len()
        invariant
            i <= v@.len(),
            out@.len() == i,
            forall|k: int| 0 <= k < i ==> action_view(#[trigger] out@[k]) == action_view(v@[k]),
        decreases v.len() - i,
    {
        out.push(v[i].clone());
        i = i + 1;
    }
    assert(actions_view(out@) =~= actions_view(v@));
    out
}

impl Clone for Pad {
    fn clone(&self) -> (r: Self)
        ensures
            r@ == self@,
    {
        Pad {
            header: clone_opt(&self.header),
            text: clone_opt(&self.text),
            icon: clone_opt(&self.icon),
            actions: clone_actions(&self.actions),
            board: clone_opt(&self.board),
            board_params: clone_params(&self.board_params),
            color_scheme: clone_opt(&self.color_scheme),
            text_style: clone_opt(&self.text_style),
        }
    }
}

impl Default for Pad {
    fn default() -> (r: Self)
        ensures
            r@ == Pad::empty_view(),
    {
        let r = Pad {
            header: None,
            text: None,
            icon: None,
            actions: Vec::new(),
            board: None,
            board_params: Vec::new(),
            color_scheme: None,
            text_style: None,
        };
        assert(actions_view(r.actions@) =~= Seq::<ActionView>::empty());
        assert(params_view(r.board_params@) =~= Seq::<(Seq<char>, Seq<char>)>::empty());
        r
    }
}

impl Pad {
    /// The pad with nothing set.
    pub open spec fn empty_view() -> PadV {
        PadV {
            header: None,
            text: None,
            icon: None,
            actions: Seq::empty(),
            board: None,
            board_params: Seq::empty(),
            color_scheme: None,
            text_style: None,
        }
    }

    /// The pad has actions.
    pub fn has_actions(&self) -> (r: bool)
        ensures
            r == (self.actions@.len() > 0),
    {
        self.actions.len() > 0
    }

    /// The pad names a (non-empty) board to open.
    pub fn has_board(&self) -> (r: bool)
        ensures
            r == match opt_view(self.board) {
                Some(b) => b.len() > 0,
                None => false,
            },
    {
        match &self.board {
            Some(b) => string_chars(b).len() > 0,
            None => false,
        }
    }

    /// Selecting the pad does something: it has actions or opens a board.
    pub fn is_interactive(&self) -> (r: bool)
        ensures
            r == (self.actions@.len() > 0 || match opt_view(self.board) {
                Some(b) => b.len() > 0,
                None => false,
            }),
    {
        self.has_actions() || self.has_board()
    }
}

/// A named set of up to nine pads.
#[derive(Debug)]
pub struct PadSet {
    pub padset_type: PadSetType,
    pub name: String,
    pub items: Vec<Pad>,
}

/// What a pad set stands for.
pub struct PadSetV {
    pub name: Seq<char>,
    pub items: Seq<PadV>,
}

/// The views of a list of pads.
pub open spec fn pads_view(v: Seq<Pad>) -> Seq<PadV> {
    v.map_values(|p: Pad| p@)
}

impl View for PadSet {
    type V = PadSetV;

    open spec fn view(&self) -> PadSetV {
        PadSetV { name: self.name@, items: pads_view(self.items@) }
    }
}

/// A copy of a list of pads.
pub fn clone_pads(v: &Vec<Pad>) -> (r: Vec<Pad>)
    ensures
        pads_view(r@) == pads_view(v@),
{
    let mut out: Vec<Pad> = Vec::new();
    let mut i: usize = 0;
    while i < v.len()
        invariant
            i <= v@.len(),
            out@.len() == i,
            forall|k: int| 0 <= k < i ==> (#[trigger] out@[k])@ == v@[k]@,
        decreases v.len() - i,
    {
        out.push(v[i].clone());
        i = i + 1;
    }
    assert(pads_view(out@) =~= pads_view(v@));
    out
}

impl Clone for PadSet {
    fn clone(&self) -> (r: Self)
        ensures
            r@ == self@,
    {
        PadSet { padset_type: self.padset_type, name: self.name.clone(), items: clone_pads(&self.items) }
    }
}

impl Default for PadSet {
    fn default() -> (r: Self)
        ensures
            r@.name == Seq::<char>::empty(),
            r@.items == Seq::<PadV>::empty(),
    {
        let r = PadSet { padset_type: PadSetType::Static, name: String::new(), items: Vec::new() };
        assert(pads_view(r.items@) =~= Seq::<PadV>::empty());
        r
    }
}

impl PadSet {
    /// A static pad set with the given name and pads.
    pub fn new(name: &str, items: Vec<Pad>) -> (r: Self)
        ensures
            r@ == (PadSetV { name: name@, items: pads_view(items@) }),
    {
        Self { name: owned(name), padset_type: PadSetType::Static, items }
    }
}

/// A board as stored: its kind, name, title, icon, detection, styling and the pad
/// sets it shows without and with modifiers.
#[derive(Debug)]
pub struct Board {
    pub board_type: BoardType,
    pub name: String,
    pub title: Option<String>,
    pub icon: Option<String>,
    pub detection: Detection,
    pub color_scheme: Option<String>,
    pub text_style: Option<String>,
    pub base_pads: Option<String>,
    /// Pad set names by modifier text (such as "Ctrl+Shift").
    pub modifier_pads: Vec<(String, String)>,
}

/// What a board stands for.
pub struct BoardV {
    pub board_type: BoardTypeView,
    pub name: Seq<char>,
    pub title: Option<Seq<char>>,
    pub icon: Option<Seq<char>>,
    pub detection: DetectionV,
    pub color_scheme: Option<Seq<char>>,
    pub text_style: Option<Seq<char>>,
    pub base_pads: Option<Seq<char>>,
    pub modifier_pads: Seq<(Seq<char>, Seq<char>)>,
}

/// The views of a list of string pairs.
pub open spec fn pairs_view(v: Seq<(String, String)>) -> Seq<(Seq<char>, Seq<char>)> {
    v.map_values(|p: (String, String)| (p.0@, p.1@))
}

impl View for Board {
    type V = BoardV;

    open spec fn view(&self) -> BoardV {
        BoardV {
            board_type: board_type_view(self.board_type),
            name: self.name@,
            title: opt_view(self.title),
            icon: opt_view(self.icon),
            detection: self.detection@,
            color_scheme: opt_view(self.color_scheme),
            text_style: opt_view(self.text_style),
            base_pads: opt_view(self.base_pads),
            modifier_pads: pairs_view(self.modifier_pads@),
        }
    }
}

/// A copy of a list of string pairs.
pub fn clone_pairs(v: &Vec<(String, String)>) -> (r: Vec<(String, String)>)
    ensures
        pairs_view(r@) == pairs_view(v@),
{
    let mut out: Vec<(String, String)> = Vec::new();
    let mut i: usize = 0;
    while i < v.len()
        invariant
            i <= v@.len(),
            out@.len() == i,
            forall|k: int|
                0 <= k < i ==> (#[trigger] out@[k]).0@ == v@[k].0@ && out@[k].1@ == v@[k].1@,
        decreases v.len() - i,
    {
        out.push((v[i].0.clone(), v[i].1.clone()));
        i = i + 1;
    }
    assert(pairs_view(out@) =~= pairs_view(v@));
    out
}

impl Clone for Board {
    fn clone(&self) -> (r: Self)
        ensures
            r@ == self@,
    {
        Board {
            board_type: self.board_type.clone(),
            name: self.name.clone(),
            title: clone_opt(&self.title),
            icon: clone_opt(&self.icon),
            detection: self.detection.clone(),
            color_scheme: clone_opt(&self.color_scheme),
            text_style: clone_opt(&self.text_style),
            base_pads: clone_opt(&self.base_pads),
            modifier_pads: clone_pairs(&self.modifier_pads),
        }
    }
}

impl Default for Board {
    fn default() -> (r: Self)
        ensures
            r@.board_type is Static,
            r@.name == Seq::<char>::empty(),
            r@.title is None,
            r@.icon is None,
            r@.detection is NoMatch,
            r@.color_scheme is None,
            r@.text_style is None,
            r@.base_pads is None,
            r@.modifier_pads == Seq::<(Seq<char>, Seq<char>)>::empty(),
    {
        let r = Board {
            board_type: BoardType::Static,
            name: String::new(),
            title: None,
            icon: None,
            detection: Detection::NoMatch,
            color_scheme: None,
            text_style: None,
            base_pads: None,
            modifier_pads: Vec::new(),
        };
        assert(pairs_view(r.modifier_pads@) =~= Seq::<(Seq<char>, Seq<char>)>::empty());
        r
    }
}

/// The value of the first pair whose key is `k`.
pub open spec fn pair_lookup(ps: Seq<(Seq<char>, Seq<char>)>, k: Seq<char>) -> Option<Seq<char>>
    decreases ps.len(),
{
    if ps.len() == 0 {
        None
    } else if ps[0].0 == k {
        Some(ps[0].1)
    } else {
        pair_lookup(ps.skip(1), k)
    }
}

/// The value of the first pair whose key is `key`.
pub fn pairs_get(ps: &Vec<(String, String)>, key: &str) -> (r: Option<String>)
    ensures
        opt_view(r) == pair_lookup(pairs_view(ps@), key@),
{
    let ghost all = pairs_view(ps@);
    let mut i: usize = 0;
    assert(all.skip(0) =~= all);
    while i < ps.len()
        invariant
            i <= ps@.len(),
            all == pairs_view(ps@),
            pair_lookup(all.skip(i as int), key@) == pair_lookup(all, key@),
        decreases ps.len() - i,
    {
        assert(all.skip(i as int).skip(1) =~= all.skip(i + 1));
        assert(all.skip(i as int)[0] == (ps@[i as int].0@, ps@[i as int].1@));
        if crate::text::str_eq(ps[i].0.as_str(), key) {
            return Some(ps[i].1.clone());
        }
        i = i + 1;
    }
    None
}

/// The pad set shown with a modifier: the board's pad set for that modifier text
/// when there is one, otherwise its base pad set.
pub open spec fn padset_name_spec(b: BoardV, modifier: Option<Seq<char>>) -> Option<Seq<char>> {
    match modifier {
        Some(m) => match pair_lookup(b.modifier_pads, m) {
            Some(p) => Some(p),
            None => b.base_pads,
        },
        None => b.base_pads,
    }
}

impl Board {
    /// The title, which is the name when no title is set.
    pub fn title(&self) -> (r: String)
        ensures
            r@ == match opt_view(self.title) {
                Some(t) => t,
                None => self.name@,
            },
    {
        match &self.title {
            Some(t) => t.clone(),
            None => self.name.clone(),
        }
    }

    /// The icon file name, empty when none is set.
    pub fn icon(&self) -> (r: String)
        ensures
            r@ == match opt_view(self.icon) {
                Some(t) => t,
                None => Seq::empty(),
            },
    {
        match &self.icon {
            Some(t) => t.clone(),
            None => String::new(),
        }
    }

    /// The name of the pad set shown with the given modifier text.
    pub fn padset_name(&self, modifier: Option<&str>) -> (r: Option<String>)
        ensures
            opt_view(r) == padset_name_spec(
                self@,
                match modifier {
                    Some(m) => Some(m@),
                    None => None,
                },
            ),
    {
        match modifier {
            Some(mod_key) => {
                match pairs_get(&self.modifier_pads, mod_key) {
                    Some(p) => {
                        return Some(p);
                    },
                    None => {},
                }
            },
            None => {},
        }
        clone_opt(&self.base_pads)
    }

    /// The board has a pad set for the given modifier text.
    pub fn has_modifier(&self, modifier: &str) -> (r: bool)
        ensures
            r == pair_lookup(self@.modifier_pads, modifier@) is Some,
    {
        pairs_get(&self.modifier_pads, modifier).is_some()
    }
}

} // verus!
