//! The settings repository: the loaded settings data, whether it changed since
//! it was stored, and the operations that read and change its components.
use vstd::prelude::*;
use crate::domain::data::{
    detection_matches, strs_view, Board, BoardV, ColorScheme, ColorSchemeV, Detection, DetectionV,
    PadSet, PadSetV, PadV, TextStyle, TextStyleV, HOME_BOARD_NAME,
};
use crate::domain::integration::{opt_view, params_view, Param};
use crate::domain::resources::Resources;
use crate::settings::persistence::{
    boards_view, padsets_view, schemes_view, styles_view, LayoutSettings, SettingsData,
};
use crate::settings::validation::{
    all_distinct, board_names, law_unique_names_ok_iff_distinct, names_of_boards, names_of_padsets,
    names_of_schemes, names_of_styles, padset_names, scheme_names, style_names,
};
use crate::text::{concat3, owned, str_eq};

verus! {

/// The first position, from `i` on, that holds the name `n`.
pub open spec fn position_from(s: Seq<Seq<char>>, n: Seq<char>, i: int) -> Option<int>
    decreases s.len() - i,
{
    if 0 <= i < s.len() {
        if s[i] == n {
            Some(i)
        } else {
            position_from(s, n, i + 1)
        }
    } else {
        None
    }
}

/// The first position that holds the name `n`.
pub open spec fn name_position(s: Seq<Seq<char>>, n: Seq<char>) -> Option<int> {
    position_from(s, n, 0)
}

/// The item of `items` at the first position whose name is `n`.
pub open spec fn lookup<T>(items: Seq<T>, names: Seq<Seq<char>>, n: Seq<char>) -> Option<T> {
    match name_position(names, n) {
        Some(k) => Some(items[k]),
        None => None,
    }
}

/// The first position found from `i` on holds `n`, and no position before it
/// from `i` on does; none is found exactly when no position from `i` on holds `n`.
pub proof fn lemma_position_from(s: Seq<Seq<char>>, n: Seq<char>, i: int)
    requires
        0 <= i <= s.len(),
    ensures
        match position_from(s, n, i) {
            Some(k) => i <= k < s.len() && s[k] == n && forall|q: int| i <= q < k ==> s[q] != n,
            None => forall|q: int| i <= q < s.len() ==> s[q] != n,
        },
    decreases s.len() - i,
{
    if i < s.len() {
        lemma_position_from(s, n, i + 1);
    }
}

/// The first position holding `n`: none exactly when `n` does not occur.
pub proof fn lemma_name_position(s: Seq<Seq<char>>, n: Seq<char>)
    ensures
        match name_position(s, n) {
            Some(k) => 0 <= k < s.len() && s[k] == n && forall|q: int| 0 <= q < k ==> s[q] != n,
            None => !s.contains(n),
        },
{
    lemma_position_from(s, n, 0);
    if name_position(s, n) is None {
        if s.contains(n) {
            let q = choose|q: int| 0 <= q < s.len() && s[q] == n;
            assert(s[q] == n);
        }
    }
}

/// Where names are distinct, a name that occurs is found at the one position that
/// holds it.
pub proof fn lemma_position_distinct(s: Seq<Seq<char>>, k: int)
    requires
        all_distinct(s),
        0 <= k < s.len(),
    ensures
        name_position(s, s[k]) == Some(k),
{
    lemma_name_position(s, s[k]);
    let p = name_position(s, s[k])->0;
    if p != k {
        if p < k {
            assert(s[p] != s[k]);
        }
    }
}

/// Appending a new name keeps names distinct.
pub proof fn lemma_distinct_push(s: Seq<Seq<char>>, n: Seq<char>)
    requires
        all_distinct(s),
        !s.contains(n),
    ensures
        all_distinct(s.push(n)),
{
    assert forall|a: int, b: int| 0 <= a < b < s.push(n).len() implies s.push(n)[a] != s.push(n)[b] by {
        if b == s.len() {
            assert(s[a] == s.push(n)[a]);
        }
    }
}

/// Writing at a position a name that is new, or the one already there, keeps names
/// distinct.
pub proof fn lemma_distinct_update(s: Seq<Seq<char>>, k: int, n: Seq<char>)
    requires
        all_distinct(s),
        0 <= k < s.len(),
        !s.contains(n) || s[k] == n,
    ensures
        all_distinct(s.update(k, n)),
{
    assert forall|a: int, b: int| 0 <= a < b < s.update(k, n).len() implies s.update(k, n)[a] != s.update(
        k,
        n,
    )[b] by {
        if a == k {
            assert(s[b] == s.update(k, n)[b]);
        } else if b == k {
            assert(s[a] == s.update(k, n)[a]);
        }
    }
}

/// Removing a position keeps names distinct.
pub proof fn lemma_distinct_remove(s: Seq<Seq<char>>, k: int)
    requires
        all_distinct(s),
        0 <= k < s.len(),
    ensures
        all_distinct(s.remove(k)),
{
    assert forall|a: int, b: int| 0 <= a < b < s.remove(k).len() implies s.remove(k)[a] != s.remove(k)[b] by {
        let a2 = if a < k { a } else { a + 1 };
        let b2 = if b < k { b } else { b + 1 };
        assert(s.remove(k)[a] == s[a2]);
        assert(s.remove(k)[b] == s[b2]);
    }
}

/// Inserting a new name at a position keeps names distinct.
pub proof fn lemma_distinct_insert(s: Seq<Seq<char>>, k: int, n: Seq<char>)
    requires
        all_distinct(s),
        0 <= k <= s.len(),
        !s.contains(n),
    ensures
        all_distinct(s.insert(k, n)),
{
    assert forall|a: int, b: int| 0 <= a < b < s.insert(k, n).len() implies s.insert(k, n)[a] != s.insert(
        k,
        n,
    )[b] by {
        let t = s.insert(k, n);
        if a == k {
            assert(t[b] == s[b - 1]);
        } else if b == k {
            assert(t[a] == s[a]);
        } else {
            let a2 = if a < k { a } else { a - 1 };
            let b2 = if b < k { b } else { b - 1 };
            assert(t[a] == s[a2]);
            assert(t[b] == s[b2]);
        }
    }
}

/// The first position of `name` among `names`.
pub fn find_name(names: &Vec<String>, name: &str) -> (r: Option<usize>)
    ensures
        match r {
            Some(k) => name_position(strs_view(names@), name@) == Some(k as int),
            None => name_position(strs_view(names@), name@) is None,
        },
{
    let ghost s = strs_view(names@);
    let mut i: usize = 0;
    while i < names.len()
        invariant
            i <= names@.len(),
            s == strs_view(names@),
            position_from(s, name@, 0) == position_from(s, name@, i as int),
        decreases names.len() - i,
    {
        if str_eq(names[i].as_str(), name) {
            return Some(i);
        }
        i = i + 1;
    }
    None
}

/// `o` with the name `from` replaced by `to`.
pub open spec fn renamed(o: Option<Seq<char>>, from: Seq<char>, to: Seq<char>) -> Option<Seq<char>> {
    match o {
        Some(n) => if n == from {
            Some(to)
        } else {
            Some(n)
        },
        None => None,
    }
}

/// Replaces the name `from` in `o` by `to`.
fn rename_in(o: &Option<String>, from: &str, to: &str) -> (r: Option<String>)
    ensures
        opt_view(r) == renamed(opt_view(*o), from@, to@),
{
    match o {
        Some(n) => if str_eq(n.as_str(), from) {
            Some(owned(to))
        } else {
            Some(n.clone())
        },
        None => None,
    }
}

/// The first board, from position `i` on, whose detection matches `process`.
pub open spec fn detected_from(bs: Seq<BoardV>, process: Seq<char>, i: int) -> Option<Seq<char>>
    decreases bs.len() - i,
{
    if 0 <= i < bs.len() {
        if detection_matches(bs[i].detection, process) {
            Some(bs[i].name)
        } else {
            detected_from(bs, process, i + 1)
        }
    } else {
        None
    }
}

/// The detections of the first `n` boards that can match, in order.
pub open spec fn detections_upto(bs: Seq<BoardV>, n: int) -> Seq<DetectionV>
    decreases n,
{
    if n <= 0 {
        Seq::empty()
    } else if bs[n - 1].detection is Win32 {
        detections_upto(bs, n - 1).push(bs[n - 1].detection)
    } else {
        detections_upto(bs, n - 1)
    }
}

/// The views of detections.
pub open spec fn detections_view(v: Seq<Detection>) -> Seq<DetectionV> {
    v.map_values(|d: Detection| d@)
}

/// Board `b` with its color scheme reference renamed.
pub open spec fn board_scheme_renamed(b: BoardV, from: Seq<char>, to: Seq<char>) -> BoardV {
    BoardV { color_scheme: renamed(b.color_scheme, from, to), ..b }
}

/// Board `b` with its text style reference renamed.
pub open spec fn board_style_renamed(b: BoardV, from: Seq<char>, to: Seq<char>) -> BoardV {
    BoardV { text_style: renamed(b.text_style, from, to), ..b }
}

/// Pad `p` with its color scheme reference renamed.
pub open spec fn pad_scheme_renamed(p: PadV, from: Seq<char>, to: Seq<char>) -> PadV {
    PadV { color_scheme: renamed(p.color_scheme, from, to), ..p }
}

/// Pad `p` with its text style reference renamed.
pub open spec fn pad_style_renamed(p: PadV, from: Seq<char>, to: Seq<char>) -> PadV {
    PadV { text_style: renamed(p.text_style, from, to), ..p }
}

/// Pad set `ps` with the color scheme references of its pads renamed.
pub open spec fn padset_scheme_renamed(ps: PadSetV, from: Seq<char>, to: Seq<char>) -> PadSetV {
    PadSetV { items: ps.items.map_values(|p: PadV| pad_scheme_renamed(p, from, to)), ..ps }
}

/// Pad set `ps` with the text style references of its pads renamed.
pub open spec fn padset_style_renamed(ps: PadSetV, from: Seq<char>, to: Seq<char>) -> PadSetV {
    PadSetV { items: ps.items.map_values(|p: PadV| pad_style_renamed(p, from, to)), ..ps }
}

/// Renaming a text style from `from` to `to` (what `rename_text_style` does to the
/// boards, `styled`) makes every board that referred to `from` refer to `to`, and
/// leaves every other reference, and everything else of every board, as it was;
/// renaming a color scheme (`schemed`) does the same for the color scheme
/// references.
pub proof fn law_renames_redirect_board_references(
    bs: Seq<BoardV>,
    from: Seq<char>,
    to: Seq<char>,
    styled: Seq<BoardV>,
    schemed: Seq<BoardV>,
)
    requires
        styled == bs.map_values(|b: BoardV| board_style_renamed(b, from, to)),
        schemed == bs.map_values(|b: BoardV| board_scheme_renamed(b, from, to)),
    ensures
        styled.len() == bs.len(),
        schemed.len() == bs.len(),
        forall|i: int|
            0 <= i < bs.len() ==> {
                &&& bs[i].text_style == Some(from) ==> (#[trigger] styled[i]).text_style == Some(to)
                &&& bs[i].text_style != Some(from) ==> styled[i].text_style == bs[i].text_style
                &&& styled[i] == BoardV { text_style: styled[i].text_style, ..bs[i] }
            },
        forall|i: int|
            0 <= i < bs.len() ==> {
                &&& bs[i].color_scheme == Some(from) ==> (#[trigger] schemed[i]).color_scheme == Some(to)
                &&& bs[i].color_scheme != Some(from) ==> schemed[i].color_scheme == bs[i].color_scheme
                &&& schemed[i] == BoardV { color_scheme: schemed[i].color_scheme, ..bs[i] }
            },
{
}

/// Renaming a text style or a color scheme from `from` to `to` makes every pad
/// that referred to `from` refer to `to`, and leaves every other reference, and
/// everything else of every pad, as it was.
pub proof fn law_renames_redirect_pad_references(ps: PadSetV, from: Seq<char>, to: Seq<char>)
    ensures
        padset_style_renamed(ps, from, to).name == ps.name,
        padset_style_renamed(ps, from, to).items.len() == ps.items.len(),
        forall|i: int|
            0 <= i < ps.items.len() ==> {
                let p = #[trigger] padset_style_renamed(ps, from, to).items[i];
                &&& ps.items[i].text_style == Some(from) ==> p.text_style == Some(to)
                &&& ps.items[i].text_style != Some(from) ==> p.text_style == ps.items[i].text_style
                &&& p == PadV { text_style: p.text_style, ..ps.items[i] }
            },
        padset_scheme_renamed(ps, from, to).name == ps.name,
        padset_scheme_renamed(ps, from, to).items.len() == ps.items.len(),
        forall|i: int|
            0 <= i < ps.items.len() ==> {
                let p = #[trigger] padset_scheme_renamed(ps, from, to).items[i];
                &&& ps.items[i].color_scheme == Some(from) ==> p.color_scheme == Some(to)
                &&& ps.items[i].color_scheme != Some(from) ==> p.color_scheme == ps.items[i].color_scheme
                &&& p == PadV { color_scheme: p.color_scheme, ..ps.items[i] }
            },
{
}

/// The settings repository: the settings data, whether it changed since it was
/// loaded or stored, and where its files are.
pub struct Settings {
    data: SettingsData,
    dirty: bool,
    resources: Resources,
}

/// Two repositories agree on everything but the components and the changed mark.
pub open spec fn keeps_options(a: &Settings, b: &Settings) -> bool {
    let x = a.data_spec();
    let y = b.data_spec();
    &&& x.timeout == y.timeout
    &&& x.feedback == y.feedback
    &&& x.editor == y.editor
    &&& x.layout == y.layout
    &&& x.natural_key_order == y.natural_key_order
    &&& x.includes == y.includes
    &&& x.source_mappings == y.source_mappings
    &&& a.resources_spec() == b.resources_spec()
}

/// Two repositories hold the same color schemes.
pub open spec fn keeps_schemes(a: &Settings, b: &Settings) -> bool {
    a.data_spec().color_schemes == b.data_spec().color_schemes
}

/// Two repositories hold the same text styles.
pub open spec fn keeps_styles(a: &Settings, b: &Settings) -> bool {
    a.data_spec().text_styles == b.data_spec().text_styles
}

/// Two repositories hold the same boards.
pub open spec fn keeps_boards(a: &Settings, b: &Settings) -> bool {
    a.data_spec().boards == b.data_spec().boards
}

/// Two repositories hold the same pad sets.
pub open spec fn keeps_padsets(a: &Settings, b: &Settings) -> bool {
    a.data_spec().padsets == b.data_spec().padsets
}

impl Settings {
    /// The settings data held.
    pub closed spec fn data_spec(&self) -> SettingsData {
        self.data
    }

    /// Whether the data changed since it was loaded or stored.
    pub closed spec fn dirty_spec(&self) -> bool {
        self.dirty
    }

    /// Where the settings files are.
    pub closed spec fn resources_spec(&self) -> Resources {
        self.resources
    }

    /// The color schemes held.
    pub open spec fn schemes_v(&self) -> Seq<ColorSchemeV> {
        schemes_view(self.data_spec().color_schemes@)
    }

    /// The text styles held.
    pub open spec fn styles_v(&self) -> Seq<TextStyleV> {
        styles_view(self.data_spec().text_styles@)
    }

    /// The boards held.
    pub open spec fn boards_v(&self) -> Seq<BoardV> {
        boards_view(self.data_spec().boards@)
    }

    /// The pad sets held.
    pub open spec fn padsets_v(&self) -> Seq<PadSetV> {
        padsets_view(self.data_spec().padsets@)
    }

    /// A repository of loaded data, not changed since.
    pub fn from_data(data: SettingsData, resources: Resources) -> (r: Self)
        ensures
            r.data_spec() == data,
            !r.dirty_spec(),
            r.resources_spec() == resources,
    {
        Settings { data, dirty: false, resources }
    }

    /// The settings data held.
    pub fn data(&self) -> (r: &SettingsData)
        ensures
            *r == self.data_spec(),
    {
        &self.data
    }

    /// The name of the first board whose detection matches the process name.
    pub fn detect(&self, detection: &str) -> (r: Option<String>)
        ensures
            opt_view(r) == detected_from(self.boards_v(), detection@, 0),
    {
        let ghost bs = self.boards_v();
        let mut i: usize = 0;
        while i < self.data.boards.len()
            invariant
                i <= self.data.boards@.len(),
                bs == boards_view(self.data.boards@),
                detected_from(bs, detection@, 0) == detected_from(bs, detection@, i as int),
            decreases self.data.boards.len() - i,
        {
            let b = &self.data.boards[i];
            assert(bs[i as int] == b@);
            if b.detection.is_match(detection) {
                return Some(b.name.clone());
            }
            i = i + 1;
        }
        None
    }

    /// The board shown when the hook fires for a process, and its parameters: the
    /// board detected for the process name with none, else the home board with the
    /// process name and the window title.
    pub fn hooked_board(&self, process_name: &str, window_title: &str) -> (r: (String, Vec<Param>))
        ensures
            match detected_from(self.boards_v(), process_name@, 0) {
                Some(b) => r.0@ == b && r.1@.len() == 0,
                None => r.0@ == HOME_BOARD_NAME@ && params_view(r.1@) == seq![
                    ("process_name"@, process_name@),
                    ("window_title"@, window_title@),
                ],
            },
    {
        match self.detect(process_name) {
            Some(b) => (b, Vec::new()),
            None => {
                let mut params: Vec<Param> = Vec::new();
                params.push(Param { name: owned("process_name"), value: owned(process_name) });
                params.push(Param { name: owned("window_title"), value: owned(window_title) });
                assert(params_view(params@) =~= seq![
                    ("process_name"@, process_name@),
                    ("window_title"@, window_title@),
                ]);
                (self.home_board_name(), params)
            },
        }
    }

    /// The detections of the boards, without those that never match.
    pub fn detections(&self) -> (r: Vec<Detection>)
        ensures
            detections_view(r@) == detections_upto(self.boards_v(), self.boards_v().len() as int),
    {
        let ghost bs = self.boards_v();
        let mut out: Vec<Detection> = Vec::new();
        let mut i: usize = 0;
        while i < self.data.boards.len()
            invariant
                i <= self.data.boards@.len(),
                bs == boards_view(self.data.boards@),
                detections_view(out@) == detections_upto(bs, i as int),
            decreases self.data.boards.len() - i,
        {
            let b = &self.data.boards[i];
            assert(bs[i as int] == b@);
            let ghost before = out@;
            match &b.detection {
                Detection::Win32(_) => {
                    let d = b.detection.clone();
                    out.push(d);
                    assert(detections_view(out@) =~= detections_view(before).push(b.detection@));
                },
                Detection::NoMatch => {},
            }
            i = i + 1;
        }
        out
    }

    /// The name of the home board.
    pub fn home_board_name(&self) -> (r: String)
        ensures
            r@ == HOME_BOARD_NAME@,
    {
        owned(HOME_BOARD_NAME)
    }

    /// The stored window layout, if any.
    pub fn get_layout_settings(&self) -> (r: Option<LayoutSettings>)
        ensures
            r is Some <==> self.data_spec().layout is Some,
            r is Some ==> {
                let a = r->0;
                let b = self.data_spec().layout->0;
                a.x == b.x && a.y == b.y && a.width == b.width && a.height == b.height
                    && a.window_style@ == b.window_style@
            },
    {
        match &self.data.layout {
            Some(l) => Some(l.clone()),
            None => None,
        }
    }

    /// Stores the window layout and marks the settings changed.
    pub fn set_layout_settings(&mut self, layout: LayoutSettings)
        ensures
            final(self).data_spec().layout == Some(layout),
            final(self).dirty_spec(),
            final(self).data_spec().timeout == old(self).data_spec().timeout,
            final(self).data_spec().feedback == old(self).data_spec().feedback,
            final(self).data_spec().editor == old(self).data_spec().editor,
            final(self).data_spec().includes == old(self).data_spec().includes,
            keeps_schemes(old(self), final(self)),
            keeps_styles(old(self), final(self)),
            keeps_boards(old(self), final(self)),
            keeps_padsets(old(self), final(self)),
            final(self).resources_spec() == old(self).resources_spec(),
    {
        self.data.layout = Some(layout);
        self.mark_dirty();
    }

    /// Where the settings files are.
    pub fn get_resources(&self) -> (r: &Resources)
        ensures
            *r == self.resources_spec(),
    {
        &self.resources
    }

    /// Whether the digit keys map to pads in reading order.
    pub fn natural_key_order(&self) -> (r: bool)
        ensures
            r == self.data_spec().natural_key_order,
    {
        self.data.natural_key_order
    }

    /// Seconds a board stays open.
    pub fn timeout(&self) -> (r: u64)
        ensures
            r == self.data_spec().timeout,
    {
        self.data.timeout
    }

    /// Milliseconds of selection feedback.
    pub fn feedback(&self) -> (r: u64)
        ensures
            r == self.data_spec().feedback,
    {
        self.data.feedback
    }

    /// The editor that opens the settings.
    pub fn editor(&self) -> (r: String)
        ensures
            r@ == self.data_spec().editor@,
    {
        self.data.editor.clone()
    }

    /// Marks the settings changed.
    pub fn mark_dirty(&mut self)
        ensures
            final(self).dirty_spec(),
            final(self).data_spec() == old(self).data_spec(),
            final(self).resources_spec() == old(self).resources_spec(),
    {
        self.dirty = true;
    }

    /// Whether the settings changed since they were loaded or stored.
    pub fn is_dirty(&self) -> (r: bool)
        ensures
            r == self.dirty_spec(),
    {
        self.dirty
    }

    /// Records that the settings were stored: they are no longer changed.
    pub fn mark_saved(&mut self)
        ensures
            !final(self).dirty_spec(),
            final(self).data_spec() == old(self).data_spec(),
            final(self).resources_spec() == old(self).resources_spec(),
    {
        self.dirty = false;
    }

    /// Replaces the data by freshly loaded data, not changed since.
    pub fn replace_data(&mut self, data: SettingsData)
        ensures
            final(self).data_spec() == data,
            !final(self).dirty_spec(),
            final(self).resources_spec() == old(self).resources_spec(),
    {
        self.data = data;
        self.dirty = false;
    }

    /// The color scheme of this name, if any.
    pub fn get_color_scheme(&self, name: &str) -> (r: Option<ColorScheme>)
        ensures
            match r {
                Some(c) => lookup(self.schemes_v(), scheme_names(self.schemes_v()), name@) == Some(c@),
                None => lookup(self.schemes_v(), scheme_names(self.schemes_v()), name@) is None,
            },
    {
        let names = names_of_schemes(&self.data.color_schemes);
        proof {
            lemma_name_position(scheme_names(self.schemes_v()), name@);
        }
        match find_name(&names, name) {
            Some(k) => Some(self.data.color_schemes[k].clone()),
            None => None,
        }
    }

    /// The text style of this name, if any.
    pub fn get_text_style(&self, name: &str) -> (r: Option<TextStyle>)
        ensures
            match r {
                Some(c) => lookup(self.styles_v(), style_names(self.styles_v()), name@) == Some(c@),
                None => lookup(self.styles_v(), style_names(self.styles_v()), name@) is None,
            },
    {
        let names = names_of_styles(&self.data.text_styles);
        proof {
            lemma_name_position(style_names(self.styles_v()), name@);
        }
        match find_name(&names, name) {
            Some(k) => Some(self.data.text_styles[k].clone()),
            None => None,
        }
    }

    /// The board of this name, or the error that there is none.
    pub fn get_board(&self, name: &str) -> (r: Result<Board, String>)
        ensures
            match r {
                Ok(b) => lookup(self.boards_v(), board_names(self.boards_v()), name@) == Some(b@),
                Err(e) => lookup(self.boards_v(), board_names(self.boards_v()), name@) is None
                    && e@ == "Board '"@ + name@ + "' not found"@,
            },
    {
        let names = names_of_boards(&self.data.boards);
        proof {
            lemma_name_position(board_names(self.boards_v()), name@);
        }
        match find_name(&names, name) {
            Some(k) => Ok(self.data.boards[k].clone()),
            None => Err(concat3("Board '", name, "' not found")),
        }
    }

    /// The pad set of this name, or the error that there is none.
    pub fn get_padset(&self, name: &str) -> (r: Result<PadSet, String>)
        ensures
            match r {
                Ok(b) => lookup(self.padsets_v(), padset_names(self.padsets_v()), name@) == Some(b@),
                Err(e) => lookup(self.padsets_v(), padset_names(self.padsets_v()), name@) is None
                    && e@ == "PadSet '"@ + name@ + "' not found"@,
            },
    {
        let names = names_of_padsets(&self.data.padsets);
        proof {
            lemma_name_position(padset_names(self.padsets_v()), name@);
        }
        match find_name(&names, name) {
            Some(k) => Ok(self.data.padsets[k].clone()),
            None => Err(concat3("PadSet '", name, "' not found")),
        }
    }

    /// The color scheme named (the default scheme's name when none is given), or
    /// the default scheme when there is none of that name.
    pub fn resolve_color_scheme(&self, name: &Option<String>) -> (r: ColorScheme)
        ensures
            r@ == match lookup(
                self.schemes_v(),
                scheme_names(self.schemes_v()),
                match opt_view(*name) {
                    Some(n) => n,
                    None => ColorScheme::default_view().name,
                },
            ) {
                Some(c) => c,
                None => ColorScheme::default_view(),
            },
    {
        let default = ColorScheme::default();
        let found = match name {
            None => self.get_color_scheme(default.name.as_str()),
            Some(n) => self.get_color_scheme(n.as_str()),
        };
        match found {
            Some(c) => c,
            None => default,
        }
    }

    /// The text style named (the default style's name when none is given), or the
    /// default style when there is none of that name.
    pub fn resolve_text_style(&self, name: &Option<String>) -> (r: TextStyle)
        ensures
            r@ == match lookup(
                self.styles_v(),
                style_names(self.styles_v()),
                match opt_view(*name) {
                    Some(n) => n,
                    None => TextStyle::default_view().name,
                },
            ) {
                Some(c) => c,
                None => TextStyle::default_view(),
            },
    {
        let default = TextStyle::default();
        let found = match name {
            None => self.get_text_style(default.name.as_str()),
            Some(n) => self.get_text_style(n.as_str()),
        };
        match found {
            Some(c) => c,
            None => default,
        }
    }

    /// The names of the color schemes, in order.
    pub fn color_schemes(&self) -> (r: Vec<String>)
        ensures
            strs_view(r@) == scheme_names(self.schemes_v()),
    {
        names_of_schemes(&self.data.color_schemes)
    }

    /// The names of the text styles, in order.
    pub fn text_styles(&self) -> (r: Vec<String>)
        ensures
            strs_view(r@) == style_names(self.styles_v()),
    {
        names_of_styles(&self.data.text_styles)
    }

    /// The names of the boards, in order.
    pub fn boards(&self) -> (r: Vec<String>)
        ensures
            strs_view(r@) == board_names(self.boards_v()),
    {
        names_of_boards(&self.data.boards)
    }

    /// The names of the pad sets, in order.
    pub fn padsets(&self) -> (r: Vec<String>)
        ensures
            strs_view(r@) == padset_names(self.padsets_v()),
    {
        names_of_padsets(&self.data.padsets)
    }

    /// Adds a Board after the others, unless one of its name exists; marks the
    /// settings changed when it was added.
    pub fn add_board(&mut self, board: Board) -> (r: Result<(), String>)
        ensures
            keeps_options(old(self), final(self)),
            keeps_schemes(old(self), final(self)),
            keeps_styles(old(self), final(self)),
            keeps_padsets(old(self), final(self)),
            match r {
                Ok(_) => !board_names(old(self).boards_v()).contains(board.name@)
                    && final(self).data_spec().boards@ == old(self).data_spec().boards@.push(board)
                    && final(self).dirty_spec(),
                Err(e) => board_names(old(self).boards_v()).contains(board.name@)
                    && e@ == "Board '"@ + board.name@ + "' already exists"@
                    && *final(self) == *old(self),
            },
            old(self).data_spec().names_unique_error() is None
                ==> final(self).data_spec().names_unique_error() is None,
    {
        let ghost old_data = self.data;
        let names = names_of_boards(&self.data.boards);
        assert(strs_view(names@).take(names@.len() as int) =~= strs_view(names@));
        if crate::settings::validation::contains_name(&names, names.len(), board.name.as_str()) {
            return Err(concat3("Board '", board.name.as_str(), "' already exists"));
        }
        let ghost n = board.name@;
        self.data.boards.push(board);
        self.mark_dirty();
        proof {
            assert(boards_view(self.data.boards@) =~= boards_view(old_data.boards@).push(self.data.boards@.last()@));
            assert(board_names(boards_view(self.data.boards@)) =~= board_names(boards_view(old_data.boards@)).push(n));
            law_unique_names_ok_iff_distinct(&old_data);
            law_unique_names_ok_iff_distinct(&self.data);
            if all_distinct(board_names(boards_view(old_data.boards@))) {
                lemma_distinct_push(board_names(boards_view(old_data.boards@)), n);
            }
        }
        Ok(())
    }

    /// Replaces the Board of the same name as the given one, or fails when there
    /// is none; marks the settings changed when it was replaced.
    pub fn set_board(&mut self, board: Board) -> (r: Result<(), String>)
        ensures
            keeps_options(old(self), final(self)),
            keeps_schemes(old(self), final(self)),
            keeps_styles(old(self), final(self)),
            keeps_padsets(old(self), final(self)),
            match r {
                Ok(_) => name_position(board_names(old(self).boards_v()), board.name@) is Some
                    && final(self).data_spec().boards@ == old(self).data_spec().boards@.update(
                        name_position(board_names(old(self).boards_v()), board.name@)->0,
                        board,
                    )
                    && final(self).dirty_spec(),
                Err(e) => name_position(board_names(old(self).boards_v()), board.name@) is None
                    && e@ == "Board '"@ + board.name@ + "' not found"@
                    && *final(self) == *old(self),
            },
            old(self).data_spec().names_unique_error() is None
                ==> final(self).data_spec().names_unique_error() is None,
    {
        let ghost old_data = self.data;
        let names = names_of_boards(&self.data.boards);
        match find_name(&names, board.name.as_str()) {
            Some(k) => {
                let ghost n = board.name@;
                proof {
                    lemma_name_position(board_names(boards_view(old_data.boards@)), n);
                }
                self.data.boards[k] = board;
                self.mark_dirty();
                proof {
                    assert(boards_view(self.data.boards@) =~= boards_view(old_data.boards@).update(k as int, self.data.boards@[k as int]@));
                    assert(board_names(boards_view(self.data.boards@)) =~= board_names(boards_view(old_data.boards@)).update(k as int, n));
                    law_unique_names_ok_iff_distinct(&old_data);
                    law_unique_names_ok_iff_distinct(&self.data);
                    if all_distinct(board_names(boards_view(old_data.boards@))) {
                        lemma_distinct_update(board_names(boards_view(old_data.boards@)), k as int, n);
                    }
                }
                Ok(())
            },
            None => Err(concat3("Board '", board.name.as_str(), "' not found")),
        }
    }

    /// Adds a PadSet after the others, unless one of its name exists; marks the
    /// settings changed when it was added.
    pub fn add_padset(&mut self, padset: PadSet) -> (r: Result<(), String>)
        ensures
            keeps_options(old(self), final(self)),
            keeps_schemes(old(self), final(self)),
            keeps_styles(old(self), final(self)),
            keeps_boards(old(self), final(self)),
            match r {
                Ok(_) => !padset_names(old(self).padsets_v()).contains(padset.name@)
                    && final(self).data_spec().padsets@ == old(self).data_spec().padsets@.push(padset)
                    && final(self).dirty_spec(),
                Err(e) => padset_names(old(self).padsets_v()).contains(padset.name@)
                    && e@ == "PadSet '"@ + padset.name@ + "' already exists"@
                    && *final(self) == *old(self),
            },
            old(self).data_spec().names_unique_error() is None
                ==> final(self).data_spec().names_unique_error() is None,
    {
        let ghost old_data = self.data;
        let names = names_of_padsets(&self.data.padsets);
        assert(strs_view(names@).take(names@.len() as int) =~= strs_view(names@));
        if crate::settings::validation::contains_name(&names, names.len(), padset.name.as_str()) {
            return Err(concat3("PadSet '", padset.name.as_str(), "' already exists"));
        }
        let ghost n = padset.name@;
        self.data.padsets.push(padset);
        self.mark_dirty();
        proof {
            assert(padsets_view(self.data.padsets@) =~= padsets_view(old_data.padsets@).push(self.data.padsets@.last()@));
            assert(padset_names(padsets_view(self.data.padsets@)) =~= padset_names(padsets_view(old_data.padsets@)).push(n));
            law_unique_names_ok_iff_distinct(&old_data);
            law_unique_names_ok_iff_distinct(&self.data);
            if all_distinct(padset_names(padsets_view(old_data.padsets@))) {
                lemma_distinct_push(padset_names(padsets_view(old_data.padsets@)), n);
            }
        }
        Ok(())
    }

    /// Replaces the PadSet of the same name as the given one, or fails when there
    /// is none; marks the settings changed when it was replaced.
    pub fn set_padset(&mut self, padset: PadSet) -> (r: Result<(), String>)
        ensures
            keeps_options(old(self), final(self)),
            keeps_schemes(old(self), final(self)),
            keeps_styles(old(self), final(self)),
            keeps_boards(old(self), final(self)),
            match r {
                Ok(_) => name_position(padset_names(old(self).padsets_v()), padset.name@) is Some
                    && final(self).data_spec().padsets@ == old(self).data_spec().padsets@.update(
                        name_position(padset_names(old(self).padsets_v()), padset.name@)->0,
                        padset,
                    )
                    && final(self).dirty_spec(),
                Err(e) => name_position(padset_names(old(self).padsets_v()), padset.name@) is None
                    && e@ == "PadSet '"@ + padset.name@ + "' not found"@
                    && *final(self) == *old(self),
            },
            old(self).data_spec().names_unique_error() is None
                ==> final(self).data_spec().names_unique_error() is None,
    {
        let ghost old_data = self.data;
        let names = names_of_padsets(&self.data.padsets);
        match find_name(&names, padset.name.as_str()) {
            Some(k) => {
                let ghost n = padset.name@;
                proof {
                    lemma_name_position(padset_names(padsets_view(old_data.padsets@)), n);
                }
                self.data.padsets[k] = padset;
                self.mark_dirty();
                proof {
                    assert(padsets_view(self.data.padsets@) =~= padsets_view(old_data.padsets@).update(k as int, self.data.padsets@[k as int]@));
                    assert(padset_names(padsets_view(self.data.padsets@)) =~= padset_names(padsets_view(old_data.padsets@)).update(k as int, n));
                    law_unique_names_ok_iff_distinct(&old_data);
                    law_unique_names_ok_iff_distinct(&self.data);
                    if all_distinct(padset_names(padsets_view(old_data.padsets@))) {
                        lemma_distinct_update(padset_names(padsets_view(old_data.padsets@)), k as int, n);
                    }
                }
                Ok(())
            },
            None => Err(concat3("PadSet '", padset.name.as_str(), "' not found")),
        }
    }

    /// Adds a ColorScheme after the others, unless one of its name exists; marks the
    /// settings changed when it was added.
    pub fn add_color_scheme(&mut self, color_scheme: ColorScheme) -> (r: Result<(), String>)
        ensures
            keeps_options(old(self), final(self)),
            keeps_styles(old(self), final(self)),
            keeps_boards(old(self), final(self)),
            keeps_padsets(old(self), final(self)),
            match r {
                Ok(_) => !scheme_names(old(self).schemes_v()).contains(color_scheme.name@)
                    && final(self).data_spec().color_schemes@ == old(self).data_spec().color_schemes@.push(color_scheme)
                    && final(self).dirty_spec(),
                Err(e) => scheme_names(old(self).schemes_v()).contains(color_scheme.name@)
                    && e@ == "ColorScheme '"@ + color_scheme.name@ + "' already exists"@
                    && *final(self) == *old(self),
            },
            old(self).data_spec().names_unique_error() is None
                ==> final(self).data_spec().names_unique_error() is None,
    {
        let ghost old_data = self.data;
        let names = names_of_schemes(&self.data.color_schemes);
        assert(strs_view(names@).take(names@.len() as int) =~= strs_view(names@));
        if crate::settings::validation::contains_name(&names, names.len(), color_scheme.name.as_str()) {
            return Err(concat3("ColorScheme '", color_scheme.name.as_str(), "' already exists"));
        }
        let ghost n = color_scheme.name@;
        self.data.color_schemes.push(color_scheme);
        self.mark_dirty();
        proof {
            assert(schemes_view(self.data.color_schemes@) =~= schemes_view(old_data.color_schemes@).push(self.data.color_schemes@.last()@));
            assert(scheme_names(schemes_view(self.data.color_schemes@)) =~= scheme_names(schemes_view(old_data.color_schemes@)).push(n));
            law_unique_names_ok_iff_distinct(&old_data);
            law_unique_names_ok_iff_distinct(&self.data);
            if all_distinct(scheme_names(schemes_view(old_data.color_schemes@))) {
                lemma_distinct_push(scheme_names(schemes_view(old_data.color_schemes@)), n);
            }
        }
        Ok(())
    }

    /// Replaces the ColorScheme of the same name as the given one, or fails when there
    /// is none; marks the settings changed when it was replaced.
    pub fn set_color_scheme(&mut self, color_scheme: ColorScheme) -> (r: Result<(), String>)
        ensures
            keeps_options(old(self), final(self)),
            keeps_styles(old(self), final(self)),
            keeps_boards(old(self), final(self)),
            keeps_padsets(old(self), final(self)),
            match r {
                Ok(_) => name_position(scheme_names(old(self).schemes_v()), color_scheme.name@) is Some
                    && final(self).data_spec().color_schemes@ == old(self).data_spec().color_schemes@.update(
                        name_position(scheme_names(old(self).schemes_v()), color_scheme.name@)->0,
                        color_scheme,
                    )
                    && final(self).dirty_spec(),
                Err(e) => name_position(scheme_names(old(self).schemes_v()), color_scheme.name@) is None
                    && e@ == "ColorScheme '"@ + color_scheme.name@ + "' not found"@
                    && *final(self) == *old(self),
            },
            old(self).data_spec().names_unique_error() is None
                ==> final(self).data_spec().names_unique_error() is None,
    {
        let ghost old_data = self.data;
        let names = names_of_schemes(&self.data.color_schemes);
        match find_name(&names, color_scheme.name.as_str()) {
            Some(k) => {
                let ghost n = color_scheme.name@;
                proof {
                    lemma_name_position(scheme_names(schemes_view(old_data.color_schemes@)), n);
                }
                self.data.color_schemes[k] = color_scheme;
                self.mark_dirty();
                proof {
                    assert(schemes_view(self.data.color_schemes@) =~= schemes_view(old_data.color_schemes@).update(k as int, self.data.color_schemes@[k as int]@));
                    assert(scheme_names(schemes_view(self.data.color_schemes@)) =~= scheme_names(schemes_view(old_data.color_schemes@)).update(k as int, n));
                    law_unique_names_ok_iff_distinct(&old_data);
                    law_unique_names_ok_iff_distinct(&self.data);
                    if all_distinct(scheme_names(schemes_view(old_data.color_schemes@))) {
                        lemma_distinct_update(scheme_names(schemes_view(old_data.color_schemes@)), k as int, n);
                    }
                }
                Ok(())
            },
            None => Err(concat3("ColorScheme '", color_scheme.name.as_str(), "' not found")),
        }
    }

    /// Adds a TextStyle after the others, unless one of its name exists; marks the
    /// settings changed when it was added.
    pub fn add_text_style(&mut self, text_style: TextStyle) -> (r: Result<(), String>)
        ensures
            keeps_options(old(self), final(self)),
            keeps_schemes(old(self), final(self)),
            keeps_boards(old(self), final(self)),
            keeps_padsets(old(self), final(self)),
            match r {
                Ok(_) => !style_names(old(self).styles_v()).contains(text_style.name@)
                    && final(self).data_spec().text_styles@ == old(self).data_spec().text_styles@.push(text_style)
                    && final(self).dirty_spec(),
                Err(e) => style_names(old(self).styles_v()).contains(text_style.name@)
                    && e@ == "TextStyle '"@ + text_style.name@ + "' already exists"@
                    && *final(self) == *old(self),
            },
            old(self).data_spec().names_unique_error() is None
                ==> final(self).data_spec().names_unique_error() is None,
    {
        let ghost old_data = self.data;
        let names = names_of_styles(&self.data.text_styles);
        assert(strs_view(names@).take(names@.len() as int) =~= strs_view(names@));
        if crate::settings::validation::contains_name(&names, names.len(), text_style.name.as_str()) {
            return Err(concat3("TextStyle '", text_style.name.as_str(), "' already exists"));
        }
        let ghost n = text_style.name@;
        self.data.text_styles.push(text_style);
        self.mark_dirty();
        proof {
            assert(styles_view(self.data.text_styles@) =~= styles_view(old_data.text_styles@).push(self.data.text_styles@.last()@));
            assert(style_names(styles_view(self.data.text_styles@)) =~= style_names(styles_view(old_data.text_styles@)).push(n));
            law_unique_names_ok_iff_distinct(&old_data);
            law_unique_names_ok_iff_distinct(&self.data);
            if all_distinct(style_names(styles_view(old_data.text_styles@))) {
                lemma_distinct_push(style_names(styles_view(old_data.text_styles@)), n);
            }
        }
        Ok(())
    }

    /// Replaces the TextStyle of the same name as the given one, or fails when there
    /// is none; marks the settings changed when it was replaced.
    pub fn set_text_style(&mut self, text_style: TextStyle) -> (r: Result<(), String>)
        ensures
            keeps_options(old(self), final(self)),
            keeps_schemes(old(self), final(self)),
            keeps_boards(old(self), final(self)),
            keeps_padsets(old(self), final(self)),
            match r {
                Ok(_) => name_position(style_names(old(self).styles_v()), text_style.name@) is Some
                    && final(self).data_spec().text_styles@ == old(self).data_spec().text_styles@.update(
                        name_position(style_names(old(self).styles_v()), text_style.name@)->0,
                        text_style,
                    )
                    && final(self).dirty_spec(),
                Err(e) => name_position(style_names(old(self).styles_v()), text_style.name@) is None
                    && e@ == "TextStyle '"@ + text_style.name@ + "' not found"@
                    && *final(self) == *old(self),
            },
            old(self).data_spec().names_unique_error() is None
                ==> final(self).data_spec().names_unique_error() is None,
    {
        let ghost old_data = self.data;
        let names = names_of_styles(&self.data.text_styles);
        match find_name(&names, text_style.name.as_str()) {
            Some(k) => {
                let ghost n = text_style.name@;
                proof {
                    lemma_name_position(style_names(styles_view(old_data.text_styles@)), n);
                }
                self.data.text_styles[k] = text_style;
                self.mark_dirty();
                proof {
                    assert(styles_view(self.data.text_styles@) =~= styles_view(old_data.text_styles@).update(k as int, self.data.text_styles@[k as int]@));
                    assert(style_names(styles_view(self.data.text_styles@)) =~= style_names(styles_view(old_data.text_styles@)).update(k as int, n));
                    law_unique_names_ok_iff_distinct(&old_data);
                    law_unique_names_ok_iff_distinct(&self.data);
                    if all_distinct(style_names(styles_view(old_data.text_styles@))) {
                        lemma_distinct_update(style_names(styles_view(old_data.text_styles@)), k as int, n);
                    }
                }
                Ok(())
            },
            None => Err(concat3("TextStyle '", text_style.name.as_str(), "' not found")),
        }
    }

    /// Removes the first board of this name, or fails when there is none; marks
    /// the settings changed when it was removed.
    pub fn delete_board(&mut self, name: &str) -> (r: Result<(), String>)
        ensures
            keeps_options(old(self), final(self)),
            keeps_schemes(old(self), final(self)),
            keeps_styles(old(self), final(self)),
            keeps_padsets(old(self), final(self)),
            match r {
                Ok(_) => name_position(board_names(old(self).boards_v()), name@) is Some
                    && final(self).data_spec().boards@ == old(self).data_spec().boards@.remove(
                        name_position(board_names(old(self).boards_v()), name@)->0,
                    )
                    && final(self).dirty_spec(),
                Err(e) => name_position(board_names(old(self).boards_v()), name@) is None
                    && e@ == "Board '"@ + name@ + "' not found"@
                    && *final(self) == *old(self),
            },
            old(self).data_spec().names_unique_error() is None
                ==> final(self).data_spec().names_unique_error() is None,
    {
        let ghost old_data = self.data;
        let names = names_of_boards(&self.data.boards);
        match find_name(&names, name) {
            Some(k) => {
                proof {
                    lemma_name_position(board_names(boards_view(old_data.boards@)), name@);
                }
                self.data.boards.remove(k);
                self.mark_dirty();
                proof {
                    assert(boards_view(self.data.boards@) =~= boards_view(old_data.boards@).remove(k as int));
                    assert(board_names(boards_view(self.data.boards@)) =~= board_names(boards_view(old_data.boards@)).remove(k as int));
                    law_unique_names_ok_iff_distinct(&old_data);
                    law_unique_names_ok_iff_distinct(&self.data);
                    if all_distinct(board_names(boards_view(old_data.boards@))) {
                        lemma_distinct_remove(board_names(boards_view(old_data.boards@)), k as int);
                    }
                }
                Ok(())
            },
            None => Err(concat3("Board '", name, "' not found")),
        }
    }

    /// Removes the first pad set of this name, or fails when there is none; marks
    /// the settings changed when it was removed.
    pub fn delete_padset(&mut self, name: &str) -> (r: Result<(), String>)
        ensures
            keeps_options(old(self), final(self)),
            keeps_schemes(old(self), final(self)),
            keeps_styles(old(self), final(self)),
            keeps_boards(old(self), final(self)),
            match r {
                Ok(_) => name_position(padset_names(old(self).padsets_v()), name@) is Some
                    && final(self).data_spec().padsets@ == old(self).data_spec().padsets@.remove(
                        name_position(padset_names(old(self).padsets_v()), name@)->0,
                    )
                    && final(self).dirty_spec(),
                Err(e) => name_position(padset_names(old(self).padsets_v()), name@) is None
                    && e@ == "PadSet '"@ + name@ + "' not found"@
                    && *final(self) == *old(self),
            },
            old(self).data_spec().names_unique_error() is None
                ==> final(self).data_spec().names_unique_error() is None,
    {
        let ghost old_data = self.data;
        let names = names_of_padsets(&self.data.padsets);
        match find_name(&names, name) {
            Some(k) => {
                proof {
                    lemma_name_position(padset_names(padsets_view(old_data.padsets@)), name@);
                }
                self.data.padsets.remove(k);
                self.mark_dirty();
                proof {
                    assert(padsets_view(self.data.padsets@) =~= padsets_view(old_data.padsets@).remove(k as int));
                    assert(padset_names(padsets_view(self.data.padsets@)) =~= padset_names(padsets_view(old_data.padsets@)).remove(k as int));
                    law_unique_names_ok_iff_distinct(&old_data);
                    law_unique_names_ok_iff_distinct(&self.data);
                    if all_distinct(padset_names(padsets_view(old_data.padsets@))) {
                        lemma_distinct_remove(padset_names(padsets_view(old_data.padsets@)), k as int);
                    }
                }
                Ok(())
            },
            None => Err(concat3("PadSet '", name, "' not found")),
        }
    }

    /// Gives the first board named `old_name` the name `new_name`; fails when
    /// there is no such board, or when a board is already named `new_name`. Marks
    /// the settings changed when it was renamed.
    pub fn rename_board(&mut self, old_name: &str, new_name: &str) -> (r: Result<(), String>)
        ensures
            keeps_options(old(self), final(self)),
            keeps_schemes(old(self), final(self)),
            keeps_styles(old(self), final(self)),
            keeps_padsets(old(self), final(self)),
            match name_position(board_names(old(self).boards_v()), old_name@) {
                None => r matches Err(e) && e@ == "Board '"@ + old_name@ + "' not found"@ && *final(self)
                    == *old(self),
                Some(k) => if board_names(old(self).boards_v()).contains(new_name@) {
                    r matches Err(e) && e@ == "Board '"@ + new_name@ + "' already exists"@ && *final(self)
                        == *old(self)
                } else {
                    r is Ok && final(self).boards_v() == old(self).boards_v().update(
                        k,
                        BoardV { name: new_name@, ..old(self).boards_v()[k] },
                    ) && final(self).dirty_spec()
                },
            },
            old(self).data_spec().names_unique_error() is None
                ==> final(self).data_spec().names_unique_error() is None,
    {
        let ghost old_data = self.data;
        let names = names_of_boards(&self.data.boards);
        proof {
            lemma_name_position(board_names(boards_view(old_data.boards@)), old_name@);
        }
        match find_name(&names, old_name) {
            Some(k) => {
                assert(strs_view(names@).take(names@.len() as int) =~= strs_view(names@));
                if crate::settings::validation::contains_name(&names, names.len(), new_name) {
                    return Err(concat3("Board '", new_name, "' already exists"));
                }
                let mut b = self.data.boards[k].clone();
                b.name = owned(new_name);
                self.data.boards.set(k, b);
                self.mark_dirty();
                proof {
                    assert(boards_view(self.data.boards@) =~= boards_view(old_data.boards@).update(
                        k as int,
                        BoardV { name: new_name@, ..boards_view(old_data.boards@)[k as int] },
                    ));
                    assert(board_names(boards_view(self.data.boards@)) =~= board_names(
                        boards_view(old_data.boards@),
                    ).update(k as int, new_name@));
                    law_unique_names_ok_iff_distinct(&old_data);
                    law_unique_names_ok_iff_distinct(&self.data);
                    if all_distinct(board_names(boards_view(old_data.boards@))) {
                        lemma_distinct_update(board_names(boards_view(old_data.boards@)), k as int, new_name@);
                    }
                }
                Ok(())
            },
            None => Err(concat3("Board '", old_name, "' not found")),
        }
    }

    /// Puts `board` in the place of the first board named `before`, which moves
    /// one place on; fails when there is no such board, or when a board already
    /// has the new board's name. Marks the settings changed when it was inserted.
    pub fn insert_board(&mut self, before: &str, board: Board) -> (r: Result<(), String>)
        ensures
            keeps_options(old(self), final(self)),
            keeps_schemes(old(self), final(self)),
            keeps_styles(old(self), final(self)),
            keeps_padsets(old(self), final(self)),
            match name_position(board_names(old(self).boards_v()), before@) {
                None => r matches Err(e) && e@ == "Board '"@ + before@ + "' not found"@ && *final(self)
                    == *old(self),
                Some(k) => if board_names(old(self).boards_v()).contains(board.name@) {
                    r matches Err(e) && e@ == "Board '"@ + board.name@ + "' already exists"@
                        && *final(self) == *old(self)
                } else {
                    r is Ok && final(self).data_spec().boards@ == old(self).data_spec().boards@.insert(k, board)
                        && final(self).dirty_spec()
                },
            },
            old(self).data_spec().names_unique_error() is None
                ==> final(self).data_spec().names_unique_error() is None,
    {
        let ghost old_data = self.data;
        let names = names_of_boards(&self.data.boards);
        proof {
            lemma_name_position(board_names(boards_view(old_data.boards@)), before@);
        }
        match find_name(&names, before) {
            Some(k) => {
                assert(strs_view(names@).take(names@.len() as int) =~= strs_view(names@));
                if crate::settings::validation::contains_name(&names, names.len(), board.name.as_str()) {
                    return Err(concat3("Board '", board.name.as_str(), "' already exists"));
                }
                let ghost n = board@;
                self.data.boards.insert(k, board);
                self.mark_dirty();
                proof {
                    assert(boards_view(self.data.boards@) =~= boards_view(old_data.boards@).insert(k as int, n));
                    assert(board_names(boards_view(self.data.boards@)) =~= board_names(
                        boards_view(old_data.boards@),
                    ).insert(k as int, n.name));
                    law_unique_names_ok_iff_distinct(&old_data);
                    law_unique_names_ok_iff_distinct(&self.data);
                    if all_distinct(board_names(boards_view(old_data.boards@))) {
                        lemma_distinct_insert(board_names(boards_view(old_data.boards@)), k as int, n.name);
                    }
                }
                Ok(())
            },
            None => Err(concat3("Board '", before, "' not found")),
        }
    }

    /// Removes the first ColorScheme of this name, or fails when there is none; marks
    /// the settings changed when it was removed.
    pub fn delete_color_scheme(&mut self, name: &str) -> (r: Result<(), String>)
        ensures
            keeps_options(old(self), final(self)),
            keeps_styles(old(self), final(self)),
            keeps_boards(old(self), final(self)),
            keeps_padsets(old(self), final(self)),
            match r {
                Ok(_) => name_position(scheme_names(old(self).schemes_v()), name@) is Some
                    && final(self).data_spec().color_schemes@ == old(self).data_spec().color_schemes@.remove(
                        name_position(scheme_names(old(self).schemes_v()), name@)->0,
                    )
                    && final(self).dirty_spec(),
                Err(e) => name_position(scheme_names(old(self).schemes_v()), name@) is None
                    && e@ == "ColorScheme '"@ + name@ + "' not found"@
                    && *final(self) == *old(self),
            },
            old(self).data_spec().names_unique_error() is None
                ==> final(self).data_spec().names_unique_error() is None,
    {
        let ghost old_data = self.data;
        let names = names_of_schemes(&self.data.color_schemes);
        match find_name(&names, name) {
            Some(k) => {
                proof {
                    lemma_name_position(scheme_names(schemes_view(old_data.color_schemes@)), name@);
                }
                self.data.color_schemes.remove(k);
                self.mark_dirty();
                proof {
                    assert(schemes_view(self.data.color_schemes@) =~= schemes_view(old_data.color_schemes@).remove(k as int));
                    assert(scheme_names(schemes_view(self.data.color_schemes@)) =~= scheme_names(schemes_view(old_data.color_schemes@)).remove(k as int));
                    law_unique_names_ok_iff_distinct(&old_data);
                    law_unique_names_ok_iff_distinct(&self.data);
                    if all_distinct(scheme_names(schemes_view(old_data.color_schemes@))) {
                        lemma_distinct_remove(scheme_names(schemes_view(old_data.color_schemes@)), k as int);
                    }
                }
                Ok(())
            },
            None => Err(concat3("ColorScheme '", name, "' not found")),
        }
    }

    /// Removes the first TextStyle of this name, or fails when there is none; marks
    /// the settings changed when it was removed.
    pub fn delete_text_style(&mut self, name: &str) -> (r: Result<(), String>)
        ensures
            keeps_options(old(self), final(self)),
            keeps_schemes(old(self), final(self)),
            keeps_boards(old(self), final(self)),
            keeps_padsets(old(self), final(self)),
            match r {
                Ok(_) => name_position(style_names(old(self).styles_v()), name@) is Some
                    && final(self).data_spec().text_styles@ == old(self).data_spec().text_styles@.remove(
                        name_position(style_names(old(self).styles_v()), name@)->0,
                    )
                    && final(self).dirty_spec(),
                Err(e) => name_position(style_names(old(self).styles_v()), name@) is None
                    && e@ == "TextStyle '"@ + name@ + "' not found"@
                    && *final(self) == *old(self),
            },
            old(self).data_spec().names_unique_error() is None
                ==> final(self).data_spec().names_unique_error() is None,
    {
        let ghost old_data = self.data;
        let names = names_of_styles(&self.data.text_styles);
        match find_name(&names, name) {
            Some(k) => {
                proof {
                    lemma_name_position(style_names(styles_view(old_data.text_styles@)), name@);
                }
                self.data.text_styles.remove(k);
                self.mark_dirty();
                proof {
                    assert(styles_view(self.data.text_styles@) =~= styles_view(old_data.text_styles@).remove(k as int));
                    assert(style_names(styles_view(self.data.text_styles@)) =~= style_names(styles_view(old_data.text_styles@)).remove(k as int));
                    law_unique_names_ok_iff_distinct(&old_data);
                    law_unique_names_ok_iff_distinct(&self.data);
                    if all_distinct(style_names(styles_view(old_data.text_styles@))) {
                        lemma_distinct_remove(style_names(styles_view(old_data.text_styles@)), k as int);
                    }
                }
                Ok(())
            },
            None => Err(concat3("TextStyle '", name, "' not found")),
        }
    }

    /// Renames the first ColorScheme named `old_name` to `new_name` and every reference to
    /// it from boards and pads; fails when `new_name` exists or `old_name` does not.
    /// Marks the settings changed when it was renamed.
    pub fn rename_color_scheme(&mut self, old_name: &str, new_name: &str) -> (r: Result<(), String>)
        ensures
            keeps_options(old(self), final(self)),
            keeps_styles(old(self), final(self)),
            match r {
                Ok(_) => !scheme_names(old(self).schemes_v()).contains(new_name@)
                    && name_position(scheme_names(old(self).schemes_v()), old_name@) is Some
                    && final(self).schemes_v() == old(self).schemes_v().update(
                        name_position(scheme_names(old(self).schemes_v()), old_name@)->0,
                        ColorSchemeV {
                            name: new_name@,
                            ..old(self).schemes_v()[name_position(scheme_names(old(self).schemes_v()), old_name@)->0]
                        },
                    )
                    && final(self).boards_v() == old(self).boards_v().map_values(
                        |b: BoardV| board_scheme_renamed(b, old_name@, new_name@),
                    )
                    && final(self).padsets_v() == old(self).padsets_v().map_values(
                        |ps: PadSetV| padset_scheme_renamed(ps, old_name@, new_name@),
                    )
                    && final(self).dirty_spec(),
                Err(e) => *final(self) == *old(self) && if scheme_names(old(self).schemes_v()).contains(new_name@) {
                    e@ == "ColorScheme '"@ + new_name@ + "' already exists"@
                } else {
                    name_position(scheme_names(old(self).schemes_v()), old_name@) is None
                        && e@ == "ColorScheme '"@ + old_name@ + "' not found"@
                },
            },
            old(self).data_spec().names_unique_error() is None
                ==> final(self).data_spec().names_unique_error() is None,
    {
        let ghost old_data = self.data;
        let names = names_of_schemes(&self.data.color_schemes);
        assert(strs_view(names@).take(names@.len() as int) =~= strs_view(names@));
        if crate::settings::validation::contains_name(&names, names.len(), new_name) {
            return Err(concat3("ColorScheme '", new_name, "' already exists"));
        }
        match find_name(&names, old_name) {
            Some(k) => {
                proof {
                    lemma_name_position(scheme_names(schemes_view(old_data.color_schemes@)), old_name@);
                }
                let mut item = self.data.color_schemes[k].clone();
                item.name = owned(new_name);
                self.data.color_schemes[k] = item;
                let boards = boards_scheme_renamed(&self.data.boards, old_name, new_name);
                self.data.boards = boards;
                let padsets = padsets_scheme_renamed(&self.data.padsets, old_name, new_name);
                self.data.padsets = padsets;
                self.mark_dirty();
                proof {
                    assert(schemes_view(self.data.color_schemes@) =~= schemes_view(old_data.color_schemes@).update(
                        k as int,
                        ColorSchemeV { name: new_name@, ..schemes_view(old_data.color_schemes@)[k as int] },
                    ));
                    assert(scheme_names(schemes_view(self.data.color_schemes@)) =~= scheme_names(schemes_view(old_data.color_schemes@)).update(
                        k as int,
                        new_name@,
                    ));
                    assert(board_names(boards_view(self.data.boards@)) =~= board_names(
                        boards_view(old_data.boards@),
                    ));
                    assert(padset_names(padsets_view(self.data.padsets@)) =~= padset_names(
                        padsets_view(old_data.padsets@),
                    ));
                    law_unique_names_ok_iff_distinct(&old_data);
                    law_unique_names_ok_iff_distinct(&self.data);
                    if all_distinct(scheme_names(schemes_view(old_data.color_schemes@))) {
                        lemma_distinct_update(scheme_names(schemes_view(old_data.color_schemes@)), k as int, new_name@);
                    }
                }
                Ok(())
            },
            None => Err(concat3("ColorScheme '", old_name, "' not found")),
        }
    }

    /// Renames the first TextStyle named `old_name` to `new_name` and every reference to
    /// it from boards and pads; fails when `new_name` exists or `old_name` does not.
    /// Marks the settings changed when it was renamed.
    pub fn rename_text_style(&mut self, old_name: &str, new_name: &str) -> (r: Result<(), String>)
        ensures
            keeps_options(old(self), final(self)),
            keeps_schemes(old(self), final(self)),
            match r {
                Ok(_) => !style_names(old(self).styles_v()).contains(new_name@)
                    && name_position(style_names(old(self).styles_v()), old_name@) is Some
                    && final(self).styles_v() == old(self).styles_v().update(
                        name_position(style_names(old(self).styles_v()), old_name@)->0,
                        TextStyleV {
                            name: new_name@,
                            ..old(self).styles_v()[name_position(style_names(old(self).styles_v()), old_name@)->0]
                        },
                    )
                    && final(self).boards_v() == old(self).boards_v().map_values(
                        |b: BoardV| board_style_renamed(b, old_name@, new_name@),
                    )
                    && final(self).padsets_v() == old(self).padsets_v().map_values(
                        |ps: PadSetV| padset_style_renamed(ps, old_name@, new_name@),
                    )
                    && final(self).dirty_spec(),
                Err(e) => *final(self) == *old(self) && if style_names(old(self).styles_v()).contains(new_name@) {
                    e@ == "TextStyle '"@ + new_name@ + "' already exists"@
                } else {
                    name_position(style_names(old(self).styles_v()), old_name@) is None
                        && e@ == "TextStyle '"@ + old_name@ + "' not found"@
                },
            },
            old(self).data_spec().names_unique_error() is None
                ==> final(self).data_spec().names_unique_error() is None,
    {
        let ghost old_data = self.data;
        let names = names_of_styles(&self.data.text_styles);
        assert(strs_view(names@).take(names@.len() as int) =~= strs_view(names@));
        if crate::settings::validation::contains_name(&names, names.len(), new_name) {
            return Err(concat3("TextStyle '", new_name, "' already exists"));
        }
        match find_name(&names, old_name) {
            Some(k) => {
                proof {
                    lemma_name_position(style_names(styles_view(old_data.text_styles@)), old_name@);
                }
                let mut item = self.data.text_styles[k].clone();
                item.name = owned(new_name);
                self.data.text_styles[k] = item;
                let boards = boards_style_renamed(&self.data.boards, old_name, new_name);
                self.data.boards = boards;
                let padsets = padsets_style_renamed(&self.data.padsets, old_name, new_name);
                self.data.padsets = padsets;
                self.mark_dirty();
                proof {
                    assert(styles_view(self.data.text_styles@) =~= styles_view(old_data.text_styles@).update(
                        k as int,
                        TextStyleV { name: new_name@, ..styles_view(old_data.text_styles@)[k as int] },
                    ));
                    assert(style_names(styles_view(self.data.text_styles@)) =~= style_names(styles_view(old_data.text_styles@)).update(
                        k as int,
                        new_name@,
                    ));
                    assert(board_names(boards_view(self.data.boards@)) =~= board_names(
                        boards_view(old_data.boards@),
                    ));
                    assert(padset_names(padsets_view(self.data.padsets@)) =~= padset_names(
                        padsets_view(old_data.padsets@),
                    ));
                    law_unique_names_ok_iff_distinct(&old_data);
                    law_unique_names_ok_iff_distinct(&self.data);
                    if all_distinct(style_names(styles_view(old_data.text_styles@))) {
                        lemma_distinct_update(style_names(styles_view(old_data.text_styles@)), k as int, new_name@);
                    }
                }
                Ok(())
            },
            None => Err(concat3("TextStyle '", old_name, "' not found")),
        }
    }
}

/// The boards, with references to the scheme `from` renamed to `to`.
fn boards_scheme_renamed(boards: &Vec<Board>, from: &str, to: &str) -> (r: Vec<Board>)
    ensures
        boards_view(r@) == boards_view(boards@).map_values(|b: BoardV| board_scheme_renamed(b, from@, to@)),
{
    let mut out: Vec<Board> = Vec::new();
    let mut i: usize = 0;
    while i < boards.len()
        invariant
            i <= boards@.len(),
            out@.len() == i,
            forall|k: int| 0 <= k < i ==> (#[trigger] out@[k])@ == board_scheme_renamed(boards@[k]@, from@, to@),
        decreases boards.len() - i,
    {
        let mut b = boards[i].clone();
        b.color_scheme = rename_in(&boards[i].color_scheme, from, to);
        out.push(b);
        i = i + 1;
    }
    assert(boards_view(out@) =~= boards_view(boards@).map_values(|b: BoardV| board_scheme_renamed(b, from@, to@)));
    out
}

/// The pads, with references to the scheme `from` renamed to `to`.
fn pads_scheme_renamed(pads: &Vec<crate::domain::data::Pad>, from: &str, to: &str) -> (r: Vec<
    crate::domain::data::Pad,
>)
    ensures
        crate::domain::data::pads_view(r@) == crate::domain::data::pads_view(pads@).map_values(
            |p: PadV| pad_scheme_renamed(p, from@, to@),
        ),
{
    let mut out: Vec<crate::domain::data::Pad> = Vec::new();
    let mut i: usize = 0;
    while i < pads.len()
        invariant
            i <= pads@.len(),
            out@.len() == i,
            forall|k: int| 0 <= k < i ==> (#[trigger] out@[k])@ == pad_scheme_renamed(pads@[k]@, from@, to@),
        decreases pads.len() - i,
    {
        let mut p = pads[i].clone();
        p.color_scheme = rename_in(&pads[i].color_scheme, from, to);
        out.push(p);
        i = i + 1;
    }
    assert(crate::domain::data::pads_view(out@) =~= crate::domain::data::pads_view(pads@).map_values(
        |p: PadV| pad_scheme_renamed(p, from@, to@),
    ));
    out
}

/// The pad sets, with references of their pads to the scheme `from` renamed to `to`.
fn padsets_scheme_renamed(padsets: &Vec<PadSet>, from: &str, to: &str) -> (r: Vec<PadSet>)
    ensures
        padsets_view(r@) == padsets_view(padsets@).map_values(|ps: PadSetV| padset_scheme_renamed(ps, from@, to@)),
{
    let mut out: Vec<PadSet> = Vec::new();
    let mut i: usize = 0;
    while i < padsets.len()
        invariant
            i <= padsets@.len(),
            out@.len() == i,
            forall|k: int| 0 <= k < i ==> (#[trigger] out@[k])@ == padset_scheme_renamed(padsets@[k]@, from@, to@),
        decreases padsets.len() - i,
    {
        let ps = &padsets[i];
        let items = pads_scheme_renamed(&ps.items, from, to);
        let n = PadSet { padset_type: ps.padset_type, name: ps.name.clone(), items };
        assert(n@ == padset_scheme_renamed(ps@, from@, to@));
        out.push(n);
        i = i + 1;
    }
    assert(padsets_view(out@) =~= padsets_view(padsets@).map_values(|ps: PadSetV| padset_scheme_renamed(ps, from@, to@)));
    out
}

/// The boards, with references to the style `from` renamed to `to`.
fn boards_style_renamed(boards: &Vec<Board>, from: &str, to: &str) -> (r: Vec<Board>)
    ensures
        boards_view(r@) == boards_view(boards@).map_values(|b: BoardV| board_style_renamed(b, from@, to@)),
{
    let mut out: Vec<Board> = Vec::new();
    let mut i: usize = 0;
    while i < boards.len()
        invariant
            i <= boards@.len(),
            out@.len() == i,
            forall|k: int| 0 <= k < i ==> (#[trigger] out@[k])@ == board_style_renamed(boards@[k]@, from@, to@),
        decreases boards.len() - i,
    {
        let mut b = boards[i].clone();
        b.text_style = rename_in(&boards[i].text_style, from, to);
        out.push(b);
        i = i + 1;
    }
    assert(boards_view(out@) =~= boards_view(boards@).map_values(|b: BoardV| board_style_renamed(b, from@, to@)));
    out
}

/// The pads, with references to the style `from` renamed to `to`.
fn pads_style_renamed(pads: &Vec<crate::domain::data::Pad>, from: &str, to: &str) -> (r: Vec<
    crate::domain::data::Pad,
>)
    ensures
        crate::domain::data::pads_view(r@) == crate::domain::data::pads_view(pads@).map_values(
            |p: PadV| pad_style_renamed(p, from@, to@),
        ),
{
    let mut out: Vec<crate::domain::data::Pad> = Vec::new();
    let mut i: usize = 0;
    while i < pads.len()
        invariant
            i <= pads@.len(),
            out@.len() == i,
            forall|k: int| 0 <= k < i ==> (#[trigger] out@[k])@ == pad_style_renamed(pads@[k]@, from@, to@),
        decreases pads.len() - i,
    {
        let mut p = pads[i].clone();
        p.text_style = rename_in(&pads[i].text_style, from, to);
        out.push(p);
        i = i + 1;
    }
    assert(crate::domain::data::pads_view(out@) =~= crate::domain::data::pads_view(pads@).map_values(
        |p: PadV| pad_style_renamed(p, from@, to@),
    ));
    out
}

/// The pad sets, with references of their pads to the style `from` renamed to `to`.
fn padsets_style_renamed(padsets: &Vec<PadSet>, from: &str, to: &str) -> (r: Vec<PadSet>)
    ensures
        padsets_view(r@) == padsets_view(padsets@).map_values(|ps: PadSetV| padset_style_renamed(ps, from@, to@)),
{
    let mut out: Vec<PadSet> = Vec::new();
    let mut i: usize = 0;
    while i < padsets.len()
        invariant
            i <= padsets@.len(),
            out@.len() == i,
            forall|k: int| 0 <= k < i ==> (#[trigger] out@[k])@ == padset_style_renamed(padsets@[k]@, from@, to@),
        decreases padsets.len() - i,
    {
        let ps = &padsets[i];
        let items = pads_style_renamed(&ps.items, from, to);
        let n = PadSet { padset_type: ps.padset_type, name: ps.name.clone(), items };
        assert(n@ == padset_style_renamed(ps@, from@, to@));
        out.push(n);
        i = i + 1;
    }
    assert(padsets_view(out@) =~= padsets_view(padsets@).map_values(|ps: PadSetV| padset_style_renamed(ps, from@, to@)));
    out
}

/// After a component is added under a new name, looking that name up gives the
/// added component.
pub proof fn law_lookup_after_add<T>(items: Seq<T>, names: Seq<Seq<char>>, item: T, name: Seq<char>)
    requires
        names.len() == items.len(),
        !names.contains(name),
    ensures
        lookup(items.push(item), names.push(name), name) == Some(item),
{
    lemma_name_position(names.push(name), name);
    match name_position(names.push(name), name) {
        Some(k) => {
            if k < names.len() {
                assert(names.push(name)[k] == names[k]);
                assert(names.contains(name));
            }
        },
        None => {
            assert(names.push(name)[names.len() as int] == name);
        },
    }
}

/// While names are distinct, after the component of a name is removed, looking the
/// name up finds nothing.
pub proof fn law_lookup_after_delete(names: Seq<Seq<char>>, name: Seq<char>)
    requires
        all_distinct(names),
        name_position(names, name) is Some,
    ensures
        name_position(names.remove(name_position(names, name)->0), name) is None,
{
    lemma_name_position(names, name);
    let k = name_position(names, name)->0;
    lemma_name_position(names.remove(k), name);
    if name_position(names.remove(k), name) is Some {
        let q = name_position(names.remove(k), name)->0;
        let q2 = if q < k { q } else { q + 1 };
        assert(names.remove(k)[q] == names[q2]);
    }
}

/// After a replacement at the position of its name, looking the name up gives the
/// new component.
pub proof fn law_lookup_after_set<T>(items: Seq<T>, names: Seq<Seq<char>>, item: T, name: Seq<char>)
    requires
        names.len() == items.len(),
        name_position(names, name) is Some,
    ensures
        lookup(items.update(name_position(names, name)->0, item), names, name) == Some(item),
{
    lemma_name_position(names, name);
}

/// After a rename from `from` to a different name `to`, a renamed board no longer
/// refers to `from`.
pub proof fn law_rename_leaves_no_board_reference(b: BoardV, from: Seq<char>, to: Seq<char>)
    requires
        from != to,
    ensures
        board_scheme_renamed(b, from, to).color_scheme != Some(from),
        board_style_renamed(b, from, to).text_style != Some(from),
{
}

/// After a rename from `from` to a different name `to`, no pad of a renamed pad
/// set refers to `from`.
pub proof fn law_rename_leaves_no_pad_reference(ps: PadSetV, from: Seq<char>, to: Seq<char>)
    requires
        from != to,
    ensures
        forall|j: int|
            0 <= j < ps.items.len() ==> (#[trigger] padset_scheme_renamed(ps, from, to).items[j]).color_scheme
                != Some(from),
        forall|j: int|
            0 <= j < ps.items.len() ==> (#[trigger] padset_style_renamed(ps, from, to).items[j]).text_style
                != Some(from),
{
}

} // verus!
