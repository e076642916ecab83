//! The settings as stored: the main file's data, the components of included files
//! and the mapping of each component to the file it comes from.
use vstd::prelude::*;
use crate::domain::data::{
    clone_strings, strs_view, Board, BoardV, ColorScheme, ColorSchemeV, PadSet, PadSetV,
    TextStyle, TextStyleV, DEFAULT_EDITOR, DEFAULT_FEEDBACK, DEFAULT_TIMEOUT,
};
use crate::domain::integration::{clone_opt, opt_view};
use crate::domain::resources::Resources;
use crate::text::{owned, split_chars, split_on, str_eq, string_chars, string_from_chars};

verus! {

/// Where a component (by type and name) is stored: `None` is the main settings file.
#[derive(Debug)]
pub struct SourceMapping {
    pub component_type: String,
    pub name: String,
    pub source: Option<String>,
}

/// What a source mapping stands for.
pub struct MappingV {
    pub component_type: Seq<char>,
    pub name: Seq<char>,
    pub source: Option<Seq<char>>,
}

impl View for SourceMapping {
    type V = MappingV;

    open spec fn view(&self) -> MappingV {
        MappingV { component_type: self.component_type@, name: self.name@, source: opt_view(self.source) }
    }
}

impl Clone for SourceMapping {
    fn clone(&self) -> (r: Self)
        ensures
            r@ == self@,
    {
        SourceMapping {
            component_type: self.component_type.clone(),
            name: self.name.clone(),
            source: clone_opt(&self.source),
        }
    }
}

impl SourceMapping {
    /// A mapping of the component `component_type`/`name` to `source`.
    pub fn new(component_type: &str, name: &str, source: Option<String>) -> (r: Self)
        ensures
            r@ == (MappingV { component_type: component_type@, name: name@, source: opt_view(source) }),
    {
        SourceMapping { component_type: owned(component_type), name: owned(name), source }
    }
}

/// The views of the mappings.
pub open spec fn mappings_view(v: Seq<SourceMapping>) -> Seq<MappingV> {
    v.map_values(|m: SourceMapping| m@)
}

/// The first mapping of this type and name.
pub open spec fn find_mappable_spec(ms: Seq<MappingV>, component_type: Seq<char>, name: Seq<char>) -> Option<
    MappingV,
>
    decreases ms.len(),
{
    if ms.len() == 0 {
        None
    } else if ms[0].component_type == component_type && ms[0].name == name {
        Some(ms[0])
    } else {
        find_mappable_spec(ms.skip(1), component_type, name)
    }
}

/// The first mapping of this name, whatever its type.
pub open spec fn find_name_spec(ms: Seq<MappingV>, name: Seq<char>) -> Option<MappingV>
    decreases ms.len(),
{
    if ms.len() == 0 {
        None
    } else if ms[0].name == name {
        Some(ms[0])
    } else {
        find_name_spec(ms.skip(1), name)
    }
}

/// The part of a name before its first `/`.
pub open spec fn first_name(name: Seq<char>) -> Seq<char> {
    split_on(name, '/')[0]
}

/// The file where components of a type go when no mapping names one.
pub open spec fn default_mapping(component_type: Seq<char>) -> Option<Seq<char>> {
    if component_type == "TextStyle"@ || component_type == "ColorScheme"@ {
        Some("settings.styling.json"@)
    } else if component_type == "KeyboardLayout"@ {
        Some("settings.layouts.json"@)
    } else {
        None
    }
}

/// The file of a component: that of the mapping of its type and name, or else of
/// the first mapping named like the first part of its name; when that mapping
/// names no file, or there is none, the default file of its type.
pub open spec fn map_spec(ms: Seq<MappingV>, component_type: Seq<char>, name: Seq<char>) -> Option<
    Seq<char>,
> {
    let found = match find_mappable_spec(ms, component_type, name) {
        Some(m) => Some(m),
        None => find_name_spec(ms, first_name(name)),
    };
    match found {
        Some(m) => match m.source {
            Some(s) => Some(s),
            None => default_mapping(component_type),
        },
        None => default_mapping(component_type),
    }
}

/// Components that are stored in a settings file and can be mapped to it.
pub trait SourceMappable {
    /// The component's type name.
    spec fn component_type_spec(&self) -> Seq<char>;

    /// The component's name.
    spec fn name_spec(&self) -> Seq<char>;

    /// The component's type name ("TextStyle", "ColorScheme", "Board", "PadSet").
    fn component_type(&self) -> (r: String)
        ensures
            r@ == self.component_type_spec(),
    ;

    /// The component's name.
    fn name(&self) -> (r: String)
        ensures
            r@ == self.name_spec(),
    ;
}

impl SourceMappable for TextStyle {
    open spec fn component_type_spec(&self) -> Seq<char> {
        "TextStyle"@
    }

    open spec fn name_spec(&self) -> Seq<char> {
        self.name@
    }

    fn component_type(&self) -> (r: String) {
        owned("TextStyle")
    }

    fn name(&self) -> (r: String) {
        self.name.clone()
    }
}

impl SourceMappable for ColorScheme {
    open spec fn component_type_spec(&self) -> Seq<char> {
        "ColorScheme"@
    }

    open spec fn name_spec(&self) -> Seq<char> {
        self.name@
    }

    fn component_type(&self) -> (r: String) {
        owned("ColorScheme")
    }

    fn name(&self) -> (r: String) {
        self.name.clone()
    }
}

impl SourceMappable for Board {
    open spec fn component_type_spec(&self) -> Seq<char> {
        "Board"@
    }

    open spec fn name_spec(&self) -> Seq<char> {
        self.name@
    }

    fn component_type(&self) -> (r: String) {
        owned("Board")
    }

    fn name(&self) -> (r: String) {
        self.name.clone()
    }
}

impl SourceMappable for PadSet {
    open spec fn component_type_spec(&self) -> Seq<char> {
        "PadSet"@
    }

    open spec fn name_spec(&self) -> Seq<char> {
        self.name@
    }

    fn component_type(&self) -> (r: String) {
        owned("PadSet")
    }

    fn name(&self) -> (r: String) {
        self.name.clone()
    }
}

fn find_mappable(ms: &Vec<SourceMapping>, component_type: &String, name: &String) -> (r: Option<
    SourceMapping,
>)
    ensures
        match r {
            Some(m) => find_mappable_spec(mappings_view(ms@), component_type@, name@) == Some(m@),
            None => find_mappable_spec(mappings_view(ms@), component_type@, name@) is None,
        },
{
    let ghost all = mappings_view(ms@);
    let mut i: usize = 0;
    assert(all.skip(0) =~= all);
    while i < ms.len()
        invariant
            i <= ms@.len(),
            all == mappings_view(ms@),
            find_mappable_spec(all.skip(i as int), component_type@, name@) == find_mappable_spec(
                all,
                component_type@,
                name@,
            ),
        decreases ms.len() - i,
    {
        assert(all.skip(i as int).skip(1) =~= all.skip(i + 1));
        assert(all.skip(i as int)[0] == ms@[i as int]@);
        if ms[i].component_type == *component_type && ms[i].name == *name {
            return Some(ms[i].clone());
        }
        i = i + 1;
    }
    None
}

fn find_name(ms: &Vec<SourceMapping>, name: &String) -> (r: Option<SourceMapping>)
    ensures
        match r {
            Some(m) => find_name_spec(mappings_view(ms@), name@) == Some(m@),
            None => find_name_spec(mappings_view(ms@), name@) is None,
        },
{
    let ghost all = mappings_view(ms@);
    let mut i: usize = 0;
    assert(all.skip(0) =~= all);
    while i < ms.len()
        invariant
            i <= ms@.len(),
            all == mappings_view(ms@),
            find_name_spec(all.skip(i as int), name@) == find_name_spec(all, name@),
        decreases ms.len() - i,
    {
        assert(all.skip(i as int).skip(1) =~= all.skip(i + 1));
        assert(all.skip(i as int)[0] == ms@[i as int]@);
        if ms[i].name == *name {
            return Some(ms[i].clone());
        }
        i = i + 1;
    }
    None
}

fn get_first_name(name: &String) -> (r: String)
    ensures
        r@ == first_name(name@),
{
    let c = string_chars(name);
    let pieces = split_chars(&c, '/');
    proof {
        lemma_split_nonempty(c@, '/');
    }
    string_from_chars(&pieces[0])
}

proof fn lemma_split_nonempty(s: Seq<char>, sep: char)
    ensures
        split_on(s, sep).len() > 0,
{
    lemma_split_from_nonempty(Seq::empty(), s, sep);
}

proof fn lemma_split_from_nonempty(cur: Seq<char>, s: Seq<char>, sep: char)
    ensures
        crate::text::split_from(cur, s, sep).len() > 0,
    decreases s.len(),
{
    if s.len() > 0 {
        if s[0] == sep {
            lemma_split_from_nonempty(Seq::empty(), s.skip(1), sep);
        } else {
            lemma_split_from_nonempty(cur.push(s[0]), s.skip(1), sep);
        }
    }
}

fn default_mapping_of(component_type: &String) -> (r: Option<String>)
    ensures
        opt_view(r) == default_mapping(component_type@),
{
    if str_eq(component_type.as_str(), "TextStyle") || str_eq(component_type.as_str(), "ColorScheme") {
        Some(owned("settings.styling.json"))
    } else if str_eq(component_type.as_str(), "KeyboardLayout") {
        Some(owned("settings.layouts.json"))
    } else {
        None
    }
}

/// The file a component of this type and name is stored in (see `map_spec`);
/// `None` is the main settings file.
pub fn map_source(ms: &Vec<SourceMapping>, component_type: &String, name: &String) -> (r: Option<String>)
    ensures
        opt_view(r) == map_spec(mappings_view(ms@), component_type@, name@),
{
    let found = match find_mappable(ms, component_type, name) {
        Some(m) => Some(m),
        None => {
            let first = get_first_name(name);
            find_name(ms, &first)
        },
    };
    match found {
        Some(m) => match m.source {
            Some(s) => Some(s),
            None => default_mapping_of(component_type),
        },
        None => default_mapping_of(component_type),
    }
}

/// Maps components to the files they are stored in.
pub trait SourceMapper {
    /// The mappings as views.
    spec fn mappings_spec(&self) -> Seq<MappingV>;

    /// The file of a component (see `map_spec`); `None` is the main settings file.
    fn map<M: SourceMappable>(&self, mappable: &M) -> (r: Option<String>)
        ensures
            opt_view(r) == map_spec(self.mappings_spec(), mappable.component_type_spec(), mappable.name_spec()),
    ;
}

impl SourceMapper for Vec<SourceMapping> {
    open spec fn mappings_spec(&self) -> Seq<MappingV> {
        mappings_view(self@)
    }

    fn map<M: SourceMappable>(&self, mappable: &M) -> (r: Option<String>) {
        let t = mappable.component_type();
        let n = mappable.name();
        map_source(self, &t, &n)
    }
}

/// Where the board window is and how it looks.
#[derive(Debug)]
pub struct LayoutSettings {
    pub x: i32,
    pub y: i32,
    pub width: i32,
    pub height: i32,
    /// "Window", "Floating" or "Taskbar".
    pub window_style: String,
}

impl Clone for LayoutSettings {
    fn clone(&self) -> (r: Self)
        ensures
            r.x == self.x,
            r.y == self.y,
            r.width == self.width,
            r.height == self.height,
            r.window_style@ == self.window_style@,
    {
        LayoutSettings {
            x: self.x,
            y: self.y,
            width: self.width,
            height: self.height,
            window_style: self.window_style.clone(),
        }
    }
}

/// The components of a settings file.
#[derive(Debug)]
pub struct ComponentsData {
    pub color_schemes: Vec<ColorScheme>,
    pub text_styles: Vec<TextStyle>,
    pub boards: Vec<Board>,
    pub padsets: Vec<PadSet>,
}

/// The views of color schemes.
pub open spec fn schemes_view(v: Seq<ColorScheme>) -> Seq<ColorSchemeV> {
    v.map_values(|c: ColorScheme| c@)
}

/// The views of text styles.
pub open spec fn styles_view(v: Seq<TextStyle>) -> Seq<TextStyleV> {
    v.map_values(|c: TextStyle| c@)
}

/// The views of boards.
pub open spec fn boards_view(v: Seq<Board>) -> Seq<BoardV> {
    v.map_values(|c: Board| c@)
}

/// The views of pad sets.
pub open spec fn padsets_view(v: Seq<PadSet>) -> Seq<PadSetV> {
    v.map_values(|c: PadSet| c@)
}

/// A copy of color schemes.
pub fn clone_schemes(v: &Vec<ColorScheme>) -> (r: Vec<ColorScheme>)
    ensures
        schemes_view(r@) == schemes_view(v@),
{
    let mut out: Vec<ColorScheme> = Vec::new();
    let mut i: usize = 0;
    while i < v.len()
        invariant
            i <= v@.len(),
            out@.len() == i,
            forall|k: int| 0 <= k < i ==> (#[trigger] out@[k])@ == v@[k]@,
        decreases v.len() - i,
    {
        out.push(v[i].clone());
        i = i + 1;
    }
    assert(schemes_view(out@) =~= schemes_view(v@));
    out
}

/// A copy of text styles.
pub fn clone_styles(v: &Vec<TextStyle>) -> (r: Vec<TextStyle>)
    ensures
        styles_view(r@) == styles_view(v@),
{
    let mut out: Vec<TextStyle> = Vec::new();
    let mut i: usize = 0;
    while i < v.len()
        invariant
            i <= v@.len(),
            out@.len() == i,
            forall|k: int| 0 <= k < i ==> (#[trigger] out@[k])@ == v@[k]@,
        decreases v.len() - i,
    {
        out.push(v[i].clone());
        i = i + 1;
    }
    assert(styles_view(out@) =~= styles_view(v@));
    out
}

/// A copy of boards.
pub fn clone_boards(v: &Vec<Board>) -> (r: Vec<Board>)
    ensures
        boards_view(r@) == boards_view(v@),
{
    let mut out: Vec<Board> = Vec::new();
    let mut i: usize = 0;
    while i < v.len()
        invariant
            i <= v@.len(),
            out@.len() == i,
            forall|k: int| 0 <= k < i ==> (#[trigger] out@[k])@ == v@[k]@,
        decreases v.len() - i,
    {
        out.push(v[i].clone());
        i = i + 1;
    }
    assert(boards_view(out@) =~= boards_view(v@));
    out
}

/// A copy of pad sets.
pub fn clone_padsets(v: &Vec<PadSet>) -> (r: Vec<PadSet>)
    ensures
        padsets_view(r@) == padsets_view(v@),
{
    let mut out: Vec<PadSet> = Vec::new();
    let mut i: usize = 0;
    while i < v.len()
        invariant
            i <= v@.len(),
            out@.len() == i,
            forall|k: int| 0 <= k < i ==> (#[trigger] out@[k])@ == v@[k]@,
        decreases v.len() - i,
    {
        out.push(v[i].clone());
        i = i + 1;
    }
    assert(padsets_view(out@) =~= padsets_view(v@));
    out
}

/// What the components stand for.
pub struct ComponentsV {
    pub color_schemes: Seq<ColorSchemeV>,
    pub text_styles: Seq<TextStyleV>,
    pub boards: Seq<BoardV>,
    pub padsets: Seq<PadSetV>,
}

impl View for ComponentsData {
    type V = ComponentsV;

    open spec fn view(&self) -> ComponentsV {
        ComponentsV {
            color_schemes: schemes_view(self.color_schemes@),
            text_styles: styles_view(self.text_styles@),
            boards: boards_view(self.boards@),
            padsets: padsets_view(self.padsets@),
        }
    }
}

impl Clone for ComponentsData {
    fn clone(&self) -> (r: Self)
        ensures
            r@ == self@,
    {
        ComponentsData {
            color_schemes: clone_schemes(&self.color_schemes),
            text_styles: clone_styles(&self.text_styles),
            boards: clone_boards(&self.boards),
            padsets: clone_padsets(&self.padsets),
        }
    }
}

impl Default for ComponentsData {
    fn default() -> (r: Self)
        ensures
            r@ == (ComponentsV {
                color_schemes: Seq::empty(),
                text_styles: Seq::empty(),
                boards: Seq::empty(),
                padsets: Seq::empty(),
            }),
    {
        let r = ComponentsData {
            color_schemes: Vec::new(),
            text_styles: Vec::new(),
            boards: Vec::new(),
            padsets: Vec::new(),
        };
        assert(schemes_view(r.color_schemes@) =~= Seq::<ColorSchemeV>::empty());
        assert(styles_view(r.text_styles@) =~= Seq::<TextStyleV>::empty());
        assert(boards_view(r.boards@) =~= Seq::<BoardV>::empty());
        assert(padsets_view(r.padsets@) =~= Seq::<PadSetV>::empty());
        r
    }
}

/// Mappings of all components to `source`: text styles, color schemes, boards, then
/// pad sets, each in order.
pub open spec fn all_mappings_spec(c: ComponentsV, source: Option<Seq<char>>) -> Seq<MappingV> {
    c.text_styles.map_values(
        |t: TextStyleV| MappingV { component_type: "TextStyle"@, name: t.name, source },
    ) + c.color_schemes.map_values(
        |t: ColorSchemeV| MappingV { component_type: "ColorScheme"@, name: t.name, source },
    ) + c.boards.map_values(|t: BoardV| MappingV { component_type: "Board"@, name: t.name, source })
        + c.padsets.map_values(|t: PadSetV| MappingV { component_type: "PadSet"@, name: t.name, source })
}

impl ComponentsData {
    /// Mappings of all components to `source`.
    pub fn all_mappings_for(&self, source: Option<String>) -> (r: Vec<SourceMapping>)
        ensures
            mappings_view(r@) == all_mappings_spec(self@, opt_view(source)),
    {
        let ghost src = opt_view(source);
        let mut out: Vec<SourceMapping> = Vec::new();
        let mut i: usize = 0;
        while i < self.text_styles.len()
            invariant
                i <= self.text_styles@.len(),
                src == opt_view(source),
                mappings_view(out@) == styles_view(self.text_styles@).take(i as int).map_values(
                    |t: TextStyleV| MappingV { component_type: "TextStyle"@, name: t.name, source: src },
                ),
            decreases self.text_styles.len() - i,
        {
            let ghost before = out@;
            let m = SourceMapping::new("TextStyle", self.text_styles[i].name.as_str(), clone_opt(&source));
            out.push(m);
            proof {
                assert(out@ =~= before.push(m));
                assert(mappings_view(out@) =~= mappings_view(before).push(m@));
                assert(styles_view(self.text_styles@).take(i + 1) =~= styles_view(self.text_styles@).take(
                    i as int,
                ).push(self.text_styles@[i as int]@));
            }
            i = i + 1;
            assert(mappings_view(out@) =~= styles_view(self.text_styles@).take(i as int).map_values(
                |t: TextStyleV| MappingV { component_type: "TextStyle"@, name: t.name, source: src },
            ));
        }
        assert(styles_view(self.text_styles@).take(i as int) =~= styles_view(self.text_styles@));
        let ghost a = mappings_view(out@);
        let mut j: usize = 0;
        while j < self.color_schemes.len()
            invariant
                j <= self.color_schemes@.len(),
                src == opt_view(source),
                mappings_view(out@) == a + schemes_view(self.color_schemes@).take(j as int).map_values(
                    |t: ColorSchemeV| MappingV { component_type: "ColorScheme"@, name: t.name, source: src },
                ),
            decreases self.color_schemes.len() - j,
        {
            let ghost before = out@;
            let m = SourceMapping::new("ColorScheme", self.color_schemes[j].name.as_str(), clone_opt(&source));
            out.push(m);
            proof {
                assert(out@ =~= before.push(m));
                assert(mappings_view(out@) =~= mappings_view(before).push(m@));
                assert(schemes_view(self.color_schemes@).take(j + 1) =~= schemes_view(self.color_schemes@).take(
                    j as int,
                ).push(self.color_schemes@[j as int]@));
            }
            j = j + 1;
            assert(mappings_view(out@) =~= a + schemes_view(self.color_schemes@).take(j as int).map_values(
                |t: ColorSchemeV| MappingV { component_type: "ColorScheme"@, name: t.name, source: src },
            ));
        }
        assert(schemes_view(self.color_schemes@).take(j as int) =~= schemes_view(self.color_schemes@));
        let ghost b = mappings_view(out@);
        let mut k: usize = 0;
        while k < self.boards.len()
            invariant
                k <= self.boards@.len(),
                src == opt_view(source),
                mappings_view(out@) == b + boards_view(self.boards@).take(k as int).map_values(
                    |t: BoardV| MappingV { component_type: "Board"@, name: t.name, source: src },
                ),
            decreases self.boards.len() - k,
        {
            let ghost before = out@;
            let m = SourceMapping::new("Board", self.boards[k].name.as_str(), clone_opt(&source));
            out.push(m);
            proof {
                assert(out@ =~= before.push(m));
                assert(mappings_view(out@) =~= mappings_view(before).push(m@));
                assert(boards_view(self.boards@).take(k + 1) =~= boards_view(self.boards@).take(
                    k as int,
                ).push(self.boards@[k as int]@));
            }
            k = k + 1;
            assert(mappings_view(out@) =~= b + boards_view(self.boards@).take(k as int).map_values(
                |t: BoardV| MappingV { component_type: "Board"@, name: t.name, source: src },
            ));
        }
        assert(boards_view(self.boards@).take(k as int) =~= boards_view(self.boards@));
        let ghost c = mappings_view(out@);
        let mut l: usize = 0;
        while l < self.padsets.len()
            invariant
                l <= self.padsets@.len(),
                src == opt_view(source),
                mappings_view(out@) == c + padsets_view(self.padsets@).take(l as int).map_values(
                    |t: PadSetV| MappingV { component_type: "PadSet"@, name: t.name, source: src },
                ),
            decreases self.padsets.len() - l,
        {
            let ghost before = out@;
            let m = SourceMapping::new("PadSet", self.padsets[l].name.as_str(), clone_opt(&source));
            out.push(m);
            proof {
                assert(out@ =~= before.push(m));
                assert(mappings_view(out@) =~= mappings_view(before).push(m@));
                assert(padsets_view(self.padsets@).take(l + 1) =~= padsets_view(self.padsets@).take(
                    l as int,
                ).push(self.padsets@[l as int]@));
            }
            l = l + 1;
            assert(mappings_view(out@) =~= c + padsets_view(self.padsets@).take(l as int).map_values(
                |t: PadSetV| MappingV { component_type: "PadSet"@, name: t.name, source: src },
            ));
        }
        assert(padsets_view(self.padsets@).take(l as int) =~= padsets_view(self.padsets@));
        out
    }
}

/// The settings as loaded: options, components, the window layout, the further files
/// to read, and where each component comes from.
#[derive(Debug)]
pub struct SettingsData {
    pub timeout: u64,
    pub feedback: u64,
    pub editor: String,
    pub color_schemes: Vec<ColorScheme>,
    pub text_styles: Vec<TextStyle>,
    pub boards: Vec<Board>,
    pub padsets: Vec<PadSet>,
    pub layout: Option<LayoutSettings>,
    pub natural_key_order: bool,
    pub includes: Vec<String>,
    pub source_mappings: Vec<SourceMapping>,
}

impl Default for SettingsData {
    fn default() -> (r: Self)
        ensures
            r.timeout == DEFAULT_TIMEOUT,
            r.feedback == DEFAULT_FEEDBACK,
            r.editor@ == DEFAULT_EDITOR@,
            r.color_schemes@.len() == 1,
            r.color_schemes@[0]@ == ColorScheme::default_view(),
            r.text_styles@.len() == 1,
            r.text_styles@[0]@ == TextStyle::default_view(),
            r.boards@.len() == 0,
            r.padsets@.len() == 0,
            r.layout is None,
            !r.natural_key_order,
            r.includes@.len() == 0,
            r.source_mappings@.len() == 0,
    {
        SettingsData {
            timeout: DEFAULT_TIMEOUT,
            feedback: DEFAULT_FEEDBACK,
            editor: owned(DEFAULT_EDITOR),
            color_schemes: vec![ColorScheme::default()],
            text_styles: vec![TextStyle::default()],
            boards: Vec::new(),
            padsets: Vec::new(),
            layout: None,
            natural_key_order: false,
            includes: Vec::new(),
            source_mappings: Vec::new(),
        }
    }
}

impl SettingsData {
    /// The components of the settings.
    pub fn as_components(&self) -> (r: ComponentsData)
        ensures
            r@.color_schemes == schemes_view(self.color_schemes@),
            r@.text_styles == styles_view(self.text_styles@),
            r@.boards == boards_view(self.boards@),
            r@.padsets == padsets_view(self.padsets@),
    {
        ComponentsData {
            color_schemes: clone_schemes(&self.color_schemes),
            text_styles: clone_styles(&self.text_styles),
            boards: clone_boards(&self.boards),
            padsets: clone_padsets(&self.padsets),
        }
    }

    /// Adds the components after the ones held.
    pub fn append_all(&mut self, components: ComponentsData)
        ensures
            final(self).color_schemes@ == old(self).color_schemes@ + components.color_schemes@,
            final(self).text_styles@ == old(self).text_styles@ + components.text_styles@,
            final(self).boards@ == old(self).boards@ + components.boards@,
            final(self).padsets@ == old(self).padsets@ + components.padsets@,
            final(self).timeout == old(self).timeout,
            final(self).feedback == old(self).feedback,
            final(self).editor == old(self).editor,
            final(self).layout == old(self).layout,
            final(self).natural_key_order == old(self).natural_key_order,
            final(self).includes == old(self).includes,
            final(self).source_mappings == old(self).source_mappings,
    {
        let ComponentsData { mut color_schemes, mut text_styles, mut boards, mut padsets } = components;
        self.color_schemes.append(&mut color_schemes);
        self.text_styles.append(&mut text_styles);
        self.boards.append(&mut boards);
        self.padsets.append(&mut padsets);
    }

    /// Replaces the components by the given ones.
    pub fn set_all(&mut self, components: ComponentsData)
        ensures
            final(self).color_schemes@ == components.color_schemes@,
            final(self).text_styles@ == components.text_styles@,
            final(self).boards@ == components.boards@,
            final(self).padsets@ == components.padsets@,
            final(self).timeout == old(self).timeout,
            final(self).feedback == old(self).feedback,
            final(self).editor == old(self).editor,
            final(self).layout == old(self).layout,
            final(self).natural_key_order == old(self).natural_key_order,
            final(self).includes == old(self).includes,
            final(self).source_mappings == old(self).source_mappings,
    {
        self.color_schemes = components.color_schemes;
        self.text_styles = components.text_styles;
        self.boards = components.boards;
        self.padsets = components.padsets;
    }
}

/// Reads and writes the settings files found in the resources.
pub struct SettingsFileStroage {
    resources: Resources,
}

impl SettingsFileStroage {
    /// The resources where the settings files are looked up.
    pub closed spec fn resources_spec(&self) -> Resources {
        self.resources
    }

    /// Storage of the settings in the given resources.
    pub fn new(resources: Resources) -> (r: Self)
        ensures
            r.resources_spec() == resources,
    {
        Self { resources }
    }

    /// The resources where the settings files are looked up.
    pub fn resources(&self) -> (r: &Resources)
        ensures
            *r == self.resources_spec(),
    {
        &self.resources
    }
}


/// Whether two optional texts are equal.
pub fn opt_eq(a: &Option<String>, b: &Option<String>) -> (r: bool)
    ensures
        r == (opt_view(*a) == opt_view(*b)),
{
    match (a, b) {
        (Some(x), Some(y)) => str_eq(x.as_str(), y.as_str()),
        (None, None) => true,
        _ => false,
    }
}

/// The items among the first `n` whose source is `key`, in order.
pub open spec fn pick_upto<T>(items: Seq<T>, srcs: Seq<Option<Seq<char>>>, key: Option<Seq<char>>, n: int) -> Seq<T>
    decreases n,
{
    if n <= 0 {
        Seq::empty()
    } else if srcs[n - 1] == key {
        pick_upto(items, srcs, key, n - 1).push(items[n - 1])
    } else {
        pick_upto(items, srcs, key, n - 1)
    }
}

/// The items whose source is `key`, in order.
pub open spec fn pick<T>(items: Seq<T>, srcs: Seq<Option<Seq<char>>>, key: Option<Seq<char>>) -> Seq<T> {
    pick_upto(items, srcs, key, items.len() as int)
}

/// The first `n` sources, each once, in the order they first occur.
pub open spec fn distinct_upto(s: Seq<Option<Seq<char>>>, n: int) -> Seq<Option<Seq<char>>>
    decreases n,
{
    if n <= 0 {
        Seq::empty()
    } else if distinct_upto(s, n - 1).contains(s[n - 1]) {
        distinct_upto(s, n - 1)
    } else {
        distinct_upto(s, n - 1).push(s[n - 1])
    }
}

/// The sources, each once, in the order they first occur.
pub open spec fn distinct_sources(s: Seq<Option<Seq<char>>>) -> Seq<Option<Seq<char>>> {
    distinct_upto(s, s.len() as int)
}

/// The views of optional texts.
pub open spec fn opts_view(v: Seq<Option<String>>) -> Seq<Option<Seq<char>>> {
    v.map_values(|o: Option<String>| opt_view(o))
}

/// The file of each style, in order.
pub open spec fn style_sources(ms: Seq<MappingV>, v: Seq<TextStyleV>) -> Seq<Option<Seq<char>>> {
    v.map_values(|c: TextStyleV| map_spec(ms, "TextStyle"@, c.name))
}

/// The file of each style, in order.
fn sources_of_styles(ms: &Vec<SourceMapping>, v: &Vec<TextStyle>) -> (r: Vec<Option<String>>)
    ensures
        opts_view(r@) == style_sources(mappings_view(ms@), styles_view(v@)),
{
    let kind = owned("TextStyle");
    let mut out: Vec<Option<String>> = Vec::new();
    let mut i: usize = 0;
    while i < v.len()
        invariant
            i <= v@.len(),
            kind@ == "TextStyle"@,
            out@.len() == i,
            forall|k: int| 0 <= k < i ==> opt_view(#[trigger] out@[k]) == map_spec(
                mappings_view(ms@),
                "TextStyle"@,
                v@[k].name@,
            ),
        decreases v.len() - i,
    {
        out.push(map_source(ms, &kind, &v[i].name));
        i = i + 1;
    }
    assert(opts_view(out@) =~= style_sources(mappings_view(ms@), styles_view(v@)));
    out
}

/// The styles whose file is `key`, in order.
fn pick_styles(v: &Vec<TextStyle>, srcs: &Vec<Option<String>>, key: &Option<String>) -> (r: Vec<TextStyle>)
    requires
        srcs@.len() == v@.len(),
    ensures
        styles_view(r@) == pick(styles_view(v@), opts_view(srcs@), opt_view(*key)),
{
    let ghost items = styles_view(v@);
    let ghost ss = opts_view(srcs@);
    let mut out: Vec<TextStyle> = Vec::new();
    let mut i: usize = 0;
    while i < v.len()
        invariant
            i <= v@.len(),
            srcs@.len() == v@.len(),
            items == styles_view(v@),
            ss == opts_view(srcs@),
            styles_view(out@) == pick_upto(items, ss, opt_view(*key), i as int),
        decreases v.len() - i,
    {
        let ghost before = out@;
        assert(ss[i as int] == opt_view(srcs@[i as int]));
        if opt_eq(&srcs[i], key) {
            out.push(v[i].clone());
            assert(styles_view(out@) =~= styles_view(before).push(items[i as int]));
        }
        i = i + 1;
    }
    out
}

/// The file of each scheme, in order.
pub open spec fn scheme_sources(ms: Seq<MappingV>, v: Seq<ColorSchemeV>) -> Seq<Option<Seq<char>>> {
    v.map_values(|c: ColorSchemeV| map_spec(ms, "ColorScheme"@, c.name))
}

/// The file of each scheme, in order.
fn sources_of_schemes(ms: &Vec<SourceMapping>, v: &Vec<ColorScheme>) -> (r: Vec<Option<String>>)
    ensures
        opts_view(r@) == scheme_sources(mappings_view(ms@), schemes_view(v@)),
{
    let kind = owned("ColorScheme");
    let mut out: Vec<Option<String>> = Vec::new();
    let mut i: usize = 0;
    while i < v.len()
        invariant
            i <= v@.len(),
            kind@ == "ColorScheme"@,
            out@.len() == i,
            forall|k: int| 0 <= k < i ==> opt_view(#[trigger] out@[k]) == map_spec(
                mappings_view(ms@),
                "ColorScheme"@,
                v@[k].name@,
            ),
        decreases v.len() - i,
    {
        out.push(map_source(ms, &kind, &v[i].name));
        i = i + 1;
    }
    assert(opts_view(out@) =~= scheme_sources(mappings_view(ms@), schemes_view(v@)));
    out
}

/// The schemes whose file is `key`, in order.
fn pick_schemes(v: &Vec<ColorScheme>, srcs: &Vec<Option<String>>, key: &Option<String>) -> (r: Vec<ColorScheme>)
    requires
        srcs@.len() == v@.len(),
    ensures
        schemes_view(r@) == pick(schemes_view(v@), opts_view(srcs@), opt_view(*key)),
{
    let ghost items = schemes_view(v@);
    let ghost ss = opts_view(srcs@);
    let mut out: Vec<ColorScheme> = Vec::new();
    let mut i: usize = 0;
    while i < v.len()
        invariant
            i <= v@.len(),
            srcs@.len() == v@.len(),
            items == schemes_view(v@),
            ss == opts_view(srcs@),
            schemes_view(out@) == pick_upto(items, ss, opt_view(*key), i as int),
        decreases v.len() - i,
    {
        let ghost before = out@;
        assert(ss[i as int] == opt_view(srcs@[i as int]));
        if opt_eq(&srcs[i], key) {
            out.push(v[i].clone());
            assert(schemes_view(out@) =~= schemes_view(before).push(items[i as int]));
        }
        i = i + 1;
    }
    out
}

/// The file of each board, in order.
pub open spec fn board_sources(ms: Seq<MappingV>, v: Seq<BoardV>) -> Seq<Option<Seq<char>>> {
    v.map_values(|c: BoardV| map_spec(ms, "Board"@, c.name))
}

/// The file of each board, in order.
fn sources_of_boards(ms: &Vec<SourceMapping>, v: &Vec<Board>) -> (r: Vec<Option<String>>)
    ensures
        opts_view(r@) == board_sources(mappings_view(ms@), boards_view(v@)),
{
    let kind = owned("Board");
    let mut out: Vec<Option<String>> = Vec::new();
    let mut i: usize = 0;
    while i < v.len()
        invariant
            i <= v@.len(),
            kind@ == "Board"@,
            out@.len() == i,
            forall|k: int| 0 <= k < i ==> opt_view(#[trigger] out@[k]) == map_spec(
                mappings_view(ms@),
                "Board"@,
                v@[k].name@,
            ),
        decreases v.len() - i,
    {
        out.push(map_source(ms, &kind, &v[i].name));
        i = i + 1;
    }
    assert(opts_view(out@) =~= board_sources(mappings_view(ms@), boards_view(v@)));
    out
}

/// The boards whose file is `key`, in order.
fn pick_boards(v: &Vec<Board>, srcs: &Vec<Option<String>>, key: &Option<String>) -> (r: Vec<Board>)
    requires
        srcs@.len() == v@.len(),
    ensures
        boards_view(r@) == pick(boards_view(v@), opts_view(srcs@), opt_view(*key)),
{
    let ghost items = boards_view(v@);
    let ghost ss = opts_view(srcs@);
    let mut out: Vec<Board> = Vec::new();
    let mut i: usize = 0;
    while i < v.len()
        invariant
            i <= v@.len(),
            srcs@.len() == v@.len(),
            items == boards_view(v@),
            ss == opts_view(srcs@),
            boards_view(out@) == pick_upto(items, ss, opt_view(*key), i as int),
        decreases v.len() - i,
    {
        let ghost before = out@;
        assert(ss[i as int] == opt_view(srcs@[i as int]));
        if opt_eq(&srcs[i], key) {
            out.push(v[i].clone());
            assert(boards_view(out@) =~= boards_view(before).push(items[i as int]));
        }
        i = i + 1;
    }
    out
}

/// The file of each padset, in order.
pub open spec fn padset_sources(ms: Seq<MappingV>, v: Seq<PadSetV>) -> Seq<Option<Seq<char>>> {
    v.map_values(|c: PadSetV| map_spec(ms, "PadSet"@, c.name))
}

/// The file of each padset, in order.
fn sources_of_padsets(ms: &Vec<SourceMapping>, v: &Vec<PadSet>) -> (r: Vec<Option<String>>)
    ensures
        opts_view(r@) == padset_sources(mappings_view(ms@), padsets_view(v@)),
{
    let kind = owned("PadSet");
    let mut out: Vec<Option<String>> = Vec::new();
    let mut i: usize = 0;
    while i < v.len()
        invariant
            i <= v@.len(),
            kind@ == "PadSet"@,
            out@.len() == i,
            forall|k: int| 0 <= k < i ==> opt_view(#[trigger] out@[k]) == map_spec(
                mappings_view(ms@),
                "PadSet"@,
                v@[k].name@,
            ),
        decreases v.len() - i,
    {
        out.push(map_source(ms, &kind, &v[i].name));
        i = i + 1;
    }
    assert(opts_view(out@) =~= padset_sources(mappings_view(ms@), padsets_view(v@)));
    out
}

/// The padsets whose file is `key`, in order.
fn pick_padsets(v: &Vec<PadSet>, srcs: &Vec<Option<String>>, key: &Option<String>) -> (r: Vec<PadSet>)
    requires
        srcs@.len() == v@.len(),
    ensures
        padsets_view(r@) == pick(padsets_view(v@), opts_view(srcs@), opt_view(*key)),
{
    let ghost items = padsets_view(v@);
    let ghost ss = opts_view(srcs@);
    let mut out: Vec<PadSet> = Vec::new();
    let mut i: usize = 0;
    while i < v.len()
        invariant
            i <= v@.len(),
            srcs@.len() == v@.len(),
            items == padsets_view(v@),
            ss == opts_view(srcs@),
            padsets_view(out@) == pick_upto(items, ss, opt_view(*key), i as int),
        decreases v.len() - i,
    {
        let ghost before = out@;
        assert(ss[i as int] == opt_view(srcs@[i as int]));
        if opt_eq(&srcs[i], key) {
            out.push(v[i].clone());
            assert(padsets_view(out@) =~= padsets_view(before).push(items[i as int]));
        }
        i = i + 1;
    }
    out
}

/// The sources, each once, in the order they first occur.
fn distinct_of(s: &Vec<Option<String>>) -> (r: Vec<Option<String>>)
    ensures
        opts_view(r@) == distinct_sources(opts_view(s@)),
{
    let ghost ss = opts_view(s@);
    let mut out: Vec<Option<String>> = Vec::new();
    let mut i: usize = 0;
    while i < s.len()
        invariant
            i <= s@.len(),
            ss == opts_view(s@),
            opts_view(out@) == distinct_upto(ss, i as int),
        decreases s.len() - i,
    {
        let mut seen = false;
        let mut k: usize = 0;
        while k < out.len()
            invariant
                k <= out@.len(),
                i < s@.len(),
                ss == opts_view(s@),
                seen == exists|q: int| 0 <= q < k && #[trigger] opts_view(out@)[q] == ss[i as int],
            decreases out.len() - k,
        {
            assert(opts_view(out@)[k as int] == opt_view(out@[k as int]));
            if opt_eq(&out[k], &s[i]) {
                seen = true;
            }
            k = k + 1;
        }
        assert(ss[i as int] == opt_view(s@[i as int]));
        assert(seen == opts_view(out@).contains(ss[i as int]));
        let ghost before = out@;
        if !seen {
            out.push(clone_opt(&s[i]));
            assert(opts_view(out@) =~= opts_view(before).push(ss[i as int]));
        }
        i = i + 1;
    }
    out
}

/// The components stored in one file.
#[derive(Debug)]
pub struct SourceGroup {
    pub source: Option<String>,
    pub components: ComponentsData,
}

/// The components split by the file each is stored in, one group per file.
#[derive(Debug)]
pub struct SeparatedComponents {
    pub groups: Vec<SourceGroup>,
}

/// The files of all components: text styles, color schemes, boards, pad sets.
pub open spec fn all_sources(ms: Seq<MappingV>, c: ComponentsV) -> Seq<Option<Seq<char>>> {
    style_sources(ms, c.text_styles) + scheme_sources(ms, c.color_schemes) + board_sources(ms, c.boards)
        + padset_sources(ms, c.padsets)
}

/// The components of `c` stored in the file `key`.
pub open spec fn components_for(ms: Seq<MappingV>, c: ComponentsV, key: Option<Seq<char>>) -> ComponentsV {
    ComponentsV {
        color_schemes: pick(c.color_schemes, scheme_sources(ms, c.color_schemes), key),
        text_styles: pick(c.text_styles, style_sources(ms, c.text_styles), key),
        boards: pick(c.boards, board_sources(ms, c.boards), key),
        padsets: pick(c.padsets, padset_sources(ms, c.padsets), key),
    }
}

impl SeparatedComponents {
    /// The files of the groups, in order.
    pub open spec fn keys_spec(&self) -> Seq<Option<Seq<char>>> {
        self.groups@.map_values(|g: SourceGroup| opt_view(g.source))
    }

    /// The number of groups.
    pub fn len(&self) -> (r: usize)
        ensures
            r == self.groups@.len(),
    {
        self.groups.len()
    }

    /// The components of the first group of the file `source`, if any.
    pub fn get(&self, source: &Option<String>) -> (r: Option<&ComponentsData>)
        ensures
            match r {
                Some(c) => exists|k: int|
                    0 <= k < self.groups@.len() && opt_view(self.groups@[k].source) == opt_view(*source)
                        && c@ == self.groups@[k].components@ && forall|q: int|
                        0 <= q < k ==> opt_view(#[trigger] self.groups@[q].source) != opt_view(*source),
                None => forall|k: int|
                    0 <= k < self.groups@.len() ==> opt_view(#[trigger] self.groups@[k].source) != opt_view(
                        *source,
                    ),
            },
    {
        let mut i: usize = 0;
        while i < self.groups.len()
            invariant
                i <= self.groups@.len(),
                forall|q: int| 0 <= q < i ==> opt_view(#[trigger] self.groups@[q].source) != opt_view(*source),
            decreases self.groups.len() - i,
        {
            if opt_eq(&self.groups[i].source, source) {
                return Some(&self.groups[i].components);
            }
            i = i + 1;
        }
        None
    }
}

impl ComponentsData {
    /// Splits the components by the file each is stored in: one group per file, the
    /// files in the order they first occur among text styles, color schemes,
    /// boards and pad sets, and each group's components in their order.
    pub fn separate_by(&self, mappings: &Vec<SourceMapping>) -> (r: SeparatedComponents)
        ensures
            r.keys_spec() == distinct_sources(all_sources(mappings_view(mappings@), self@)),
            forall|k: int|
                0 <= k < r.groups@.len() ==> (#[trigger] r.groups@[k]).components@ == components_for(
                    mappings_view(mappings@),
                    self@,
                    opt_view(r.groups@[k].source),
                ),
    {
        let ts = sources_of_styles(mappings, &self.text_styles);
        let cs = sources_of_schemes(mappings, &self.color_schemes);
        let bs = sources_of_boards(mappings, &self.boards);
        let ps = sources_of_padsets(mappings, &self.padsets);
        let mut all: Vec<Option<String>> = Vec::new();
        let mut a = clone_opts(&ts);
        let mut b = clone_opts(&cs);
        let mut c = clone_opts(&bs);
        let mut d = clone_opts(&ps);
        all.append(&mut a);
        all.append(&mut b);
        all.append(&mut c);
        all.append(&mut d);
        assert(opts_view(all@) =~= all_sources(mappings_view(mappings@), self@));
        let keys = distinct_of(&all);
        let mut groups: Vec<SourceGroup> = Vec::new();
        let mut i: usize = 0;
        while i < keys.len()
            invariant
                i <= keys@.len(),
                opts_view(ts@) == style_sources(mappings_view(mappings@), self@.text_styles),
                opts_view(cs@) == scheme_sources(mappings_view(mappings@), self@.color_schemes),
                opts_view(bs@) == board_sources(mappings_view(mappings@), self@.boards),
                opts_view(ps@) == padset_sources(mappings_view(mappings@), self@.padsets),
                ts@.len() == self.text_styles@.len(),
                cs@.len() == self.color_schemes@.len(),
                bs@.len() == self.boards@.len(),
                ps@.len() == self.padsets@.len(),
                groups@.len() == i,
                forall|k: int| 0 <= k < i ==> opt_view(#[trigger] groups@[k].source) == opt_view(keys@[k]),
                forall|k: int|
                    0 <= k < i ==> (#[trigger] groups@[k]).components@ == components_for(
                        mappings_view(mappings@),
                        self@,
                        opt_view(groups@[k].source),
                    ),
            decreases keys.len() - i,
        {
            let key = &keys[i];
            let components = ComponentsData {
                color_schemes: pick_schemes(&self.color_schemes, &cs, key),
                text_styles: pick_styles(&self.text_styles, &ts, key),
                boards: pick_boards(&self.boards, &bs, key),
                padsets: pick_padsets(&self.padsets, &ps, key),
            };
            groups.push(SourceGroup { source: clone_opt(key), components });
            i = i + 1;
        }
        let r = SeparatedComponents { groups };
        assert(r.keys_spec() =~= opts_view(keys@));
        r
    }
}

/// A copy of optional texts.
fn clone_opts(v: &Vec<Option<String>>) -> (r: Vec<Option<String>>)
    ensures
        opts_view(r@) == opts_view(v@),
        r@.len() == v@.len(),
{
    let mut out: Vec<Option<String>> = Vec::new();
    let mut i: usize = 0;
    while i < v.len()
        invariant
            i <= v@.len(),
            out@.len() == i,
            forall|k: int| 0 <= k < i ==> opt_view(#[trigger] out@[k]) == opt_view(v@[k]),
        decreases v.len() - i,
    {
        out.push(clone_opt(&v[i]));
        i = i + 1;
    }
    assert(opts_view(out@) =~= opts_view(v@));
    out
}


impl SettingsData {
    /// Records every component held as coming from the main settings file.
    pub fn record_main_mappings(&mut self)
        ensures
            mappings_view(final(self).source_mappings@) == all_mappings_spec(
                ComponentsV {
                    color_schemes: schemes_view(old(self).color_schemes@),
                    text_styles: styles_view(old(self).text_styles@),
                    boards: boards_view(old(self).boards@),
                    padsets: padsets_view(old(self).padsets@),
                },
                None,
            ),
            final(self).color_schemes == old(self).color_schemes,
            final(self).text_styles == old(self).text_styles,
            final(self).boards == old(self).boards,
            final(self).padsets == old(self).padsets,
            final(self).includes == old(self).includes,
    {
        let components = self.as_components();
        self.source_mappings = components.all_mappings_for(None);
    }

    /// Adds the components of an included file after the ones held, records them
    /// as coming from that file, and checks that names stay unique.
    pub fn include_components(&mut self, file_name: String, components: ComponentsData) -> (r: Result<
        (),
        String,
    >)
        ensures
            mappings_view(final(self).source_mappings@) == mappings_view(old(self).source_mappings@)
                + all_mappings_spec(components@, Some(file_name@)),
            final(self).color_schemes@ == old(self).color_schemes@ + components.color_schemes@,
            final(self).text_styles@ == old(self).text_styles@ + components.text_styles@,
            final(self).boards@ == old(self).boards@ + components.boards@,
            final(self).padsets@ == old(self).padsets@ + components.padsets@,
            final(self).includes == old(self).includes,
            match r {
                Ok(_) => final(self).names_unique_error() is None,
                Err(e) => final(self).names_unique_error() == Some(e@),
            },
    {
        let mut mappings = components.all_mappings_for(Some(file_name));
        let ghost before = self.source_mappings@;
        let ghost added = mappings@;
        self.source_mappings.append(&mut mappings);
        proof {
            assert(mappings_view(before + added) =~= mappings_view(before) + mappings_view(added));
        }
        self.append_all(components);
        self.validate_unique_names()
    }
}

} // verus!
