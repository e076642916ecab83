//! Checks of loaded settings: that no two components of one type share a name,
//! and that every name a component refers to exists.
use vstd::prelude::*;
use crate::domain::data::{
    strs_view, Board, BoardV, ColorScheme, ColorSchemeV, PadSet, PadSetV, PadV, TextStyle,
    TextStyleV,
};
use crate::domain::integration::opt_view;
use crate::settings::persistence::{boards_view, padsets_view, schemes_view, styles_view, SettingsData};
use crate::text::{concat, concat3, owned, str_eq};

verus! {

/// The names of color schemes, in order.
pub open spec fn scheme_names(v: Seq<ColorSchemeV>) -> Seq<Seq<char>> {
    v.map_values(|c: ColorSchemeV| c.name)
}

/// The names of text styles, in order.
pub open spec fn style_names(v: Seq<TextStyleV>) -> Seq<Seq<char>> {
    v.map_values(|c: TextStyleV| c.name)
}

/// The names of boards, in order.
pub open spec fn board_names(v: Seq<BoardV>) -> Seq<Seq<char>> {
    v.map_values(|c: BoardV| c.name)
}

/// The names of pad sets, in order.
pub open spec fn padset_names(v: Seq<PadSetV>) -> Seq<Seq<char>> {
    v.map_values(|c: PadSetV| c.name)
}

/// No name occurs twice in `s`.
pub open spec fn all_distinct(s: Seq<Seq<char>>) -> bool {
    forall|a: int, b: int| 0 <= a < b < s.len() ==> s[a] != s[b]
}

/// The first name, from position `j` on, that already occurred before it.
pub open spec fn first_repeat(s: Seq<Seq<char>>, j: int) -> Option<Seq<char>>
    decreases s.len() - j,
{
    if 0 <= j < s.len() {
        if s.take(j).contains(s[j]) {
            Some(s[j])
        } else {
            first_repeat(s, j + 1)
        }
    } else {
        None
    }
}

/// The message for a repeated name of a component type.
pub open spec fn duplicate_message(kind: Seq<char>, name: Seq<char>) -> Seq<char> {
    "Duplicate '"@ + kind + "' name found: "@ + name
}

/// The error of the uniqueness check: the first repeated color scheme name, else
/// text style name, else board name, else pad set name.
pub open spec fn unique_names_error(
    cs: Seq<Seq<char>>,
    ts: Seq<Seq<char>>,
    bs: Seq<Seq<char>>,
    ps: Seq<Seq<char>>,
) -> Option<Seq<char>> {
    if first_repeat(cs, 0) is Some {
        Some(duplicate_message("ColorScheme"@, first_repeat(cs, 0)->0))
    } else if first_repeat(ts, 0) is Some {
        Some(duplicate_message("TextStyle"@, first_repeat(ts, 0)->0))
    } else if first_repeat(bs, 0) is Some {
        Some(duplicate_message("Board"@, first_repeat(bs, 0)->0))
    } else if first_repeat(ps, 0) is Some {
        Some(duplicate_message("PadSet"@, first_repeat(ps, 0)->0))
    } else {
        None
    }
}

/// The first board, from position `i` on, whose color scheme is not among `names`.
pub open spec fn scheme_ref_error(bs: Seq<BoardV>, names: Seq<Seq<char>>, i: int) -> Option<Seq<char>>
    decreases bs.len() - i,
{
    if 0 <= i < bs.len() {
        if bs[i].color_scheme is Some && !names.contains(bs[i].color_scheme->0) {
            Some(
                "Color scheme '"@ + bs[i].color_scheme->0 + "' for board '"@ + bs[i].name
                    + "' not found in settings"@,
            )
        } else {
            scheme_ref_error(bs, names, i + 1)
        }
    } else {
        None
    }
}

/// The first board, from position `i` on, whose text style is not among `names`.
pub open spec fn style_ref_error(bs: Seq<BoardV>, names: Seq<Seq<char>>, i: int) -> Option<Seq<char>>
    decreases bs.len() - i,
{
    if 0 <= i < bs.len() {
        if bs[i].text_style is Some && !names.contains(bs[i].text_style->0) {
            Some(
                "Text style '"@ + bs[i].text_style->0 + "' for board '"@ + bs[i].name
                    + "' not found in settings"@,
            )
        } else {
            style_ref_error(bs, names, i + 1)
        }
    } else {
        None
    }
}

/// The first modifier pad set of board `b`, from position `k` on, that is not among
/// `names`.
pub open spec fn modifier_ref_error(b: BoardV, names: Seq<Seq<char>>, k: int) -> Option<Seq<char>>
    decreases b.modifier_pads.len() - k,
{
    if 0 <= k < b.modifier_pads.len() {
        if !names.contains(b.modifier_pads[k].1) {
            Some(
                "Modifier pad set '"@ + b.modifier_pads[k].1 + "' not found for board '"@ + b.name
                    + "' with modifier '"@ + b.modifier_pads[k].0 + "'"@,
            )
        } else {
            modifier_ref_error(b, names, k + 1)
        }
    } else {
        None
    }
}

/// The first board, from position `i` on, whose base pad set or one of whose
/// modifier pad sets is not among `names`.
pub open spec fn pad_ref_error(bs: Seq<BoardV>, names: Seq<Seq<char>>, i: int) -> Option<Seq<char>>
    decreases bs.len() - i,
{
    if 0 <= i < bs.len() {
        if bs[i].base_pads is Some && !names.contains(bs[i].base_pads->0) {
            Some("Base pad set '"@ + bs[i].base_pads->0 + "' not found for board '"@ + bs[i].name + "'"@)
        } else if modifier_ref_error(bs[i], names, 0) is Some {
            modifier_ref_error(bs[i], names, 0)
        } else {
            pad_ref_error(bs, names, i + 1)
        }
    } else {
        None
    }
}

/// The text that `{:?}` writes for an optional string.
pub uninterp spec fn debug_text_of(o: Option<Seq<char>>) -> Seq<char>;

/// Formats an optional string with `{:?}` (the `Debug` impl of `Option<String>`);
/// its result is named `debug_text_of`. For `None` that text is `None`; the quoting
/// and escaping of a present string is left to the name.
#[verifier::external_body]
pub(crate) fn debug_text(o: &Option<String>) -> (r: String)
    ensures
        r@ == debug_text_of(opt_view(*o)),
        o.is_none() ==> r@ == "None"@,
{
    format!("{:?}", o)
}

/// What is wrong with one pad of pad set `ps`: a board, color scheme or text style
/// it refers to that does not exist.
pub open spec fn pad_error(
    p: PadV,
    ps: Seq<char>,
    boards: Seq<Seq<char>>,
    schemes: Seq<Seq<char>>,
    styles: Seq<Seq<char>>,
) -> Option<Seq<char>> {
    if p.board is Some && !boards.contains(p.board->0) {
        Some(
            "Invalid board reference '"@ + p.board->0 + "' in pad '"@ + debug_text_of(p.header)
                + "' of padset '"@ + ps + "'"@,
        )
    } else if p.color_scheme is Some && !schemes.contains(p.color_scheme->0) {
        Some(
            "Color scheme '"@ + p.color_scheme->0 + "' not found for pad '"@ + debug_text_of(p.header)
                + "' in padset '"@ + ps + "'"@,
        )
    } else if p.text_style is Some && !styles.contains(p.text_style->0) {
        Some(
            "Text style '"@ + p.text_style->0 + "' not found for pad '"@ + debug_text_of(p.header)
                + "' in padset '"@ + ps + "'"@,
        )
    } else {
        None
    }
}

/// The first faulty pad of pad set `ps`, from position `k` on.
pub open spec fn items_error(
    ps: PadSetV,
    boards: Seq<Seq<char>>,
    schemes: Seq<Seq<char>>,
    styles: Seq<Seq<char>>,
    k: int,
) -> Option<Seq<char>>
    decreases ps.items.len() - k,
{
    if 0 <= k < ps.items.len() {
        if pad_error(ps.items[k], ps.name, boards, schemes, styles) is Some {
            pad_error(ps.items[k], ps.name, boards, schemes, styles)
        } else {
            items_error(ps, boards, schemes, styles, k + 1)
        }
    } else {
        None
    }
}

/// The first faulty pad of the pad sets, from pad set `i` on.
pub open spec fn cross_ref_error(
    pss: Seq<PadSetV>,
    boards: Seq<Seq<char>>,
    schemes: Seq<Seq<char>>,
    styles: Seq<Seq<char>>,
    i: int,
) -> Option<Seq<char>>
    decreases pss.len() - i,
{
    if 0 <= i < pss.len() {
        if items_error(pss[i], boards, schemes, styles, 0) is Some {
            items_error(pss[i], boards, schemes, styles, 0)
        } else {
            cross_ref_error(pss, boards, schemes, styles, i + 1)
        }
    } else {
        None
    }
}

/// The error of the integrity check: no boards, else the first failed reference
/// check (color schemes, text styles, pad sets, then the pads' references), with
/// its prefix.
pub open spec fn integrity_error(
    cs: Seq<ColorSchemeV>,
    ts: Seq<TextStyleV>,
    bs: Seq<BoardV>,
    ps: Seq<PadSetV>,
) -> Option<Seq<char>> {
    let e1 = scheme_ref_error(bs, scheme_names(cs), 0);
    let e2 = style_ref_error(bs, style_names(ts), 0);
    let e3 = pad_ref_error(bs, padset_names(ps), 0);
    let e4 = cross_ref_error(ps, board_names(bs), scheme_names(cs), style_names(ts), 0);
    if bs.len() == 0 {
        Some("No boards defined in settings"@)
    } else if e1 is Some {
        Some("Color scheme validation failed: "@ + e1->0)
    } else if e2 is Some {
        Some("Text style validation failed: "@ + e2->0)
    } else if e3 is Some {
        Some("Pad reference validation failed: "@ + e3->0)
    } else if e4 is Some {
        Some("Cross board validation failed: "@ + e4->0)
    } else {
        None
    }
}

/// Whether `name` is among the first `upto` strings of `v`.
pub fn contains_name(v: &Vec<String>, upto: usize, name: &str) -> (r: bool)
    requires
        upto <= v.len(),
    ensures
        r == strs_view(v@).take(upto as int).contains(name@),
{
    let ghost s = strs_view(v@).take(upto as int);
    let mut k: usize = 0;
    while k < upto
        invariant
            k <= upto <= v@.len(),
            s == strs_view(v@).take(upto as int),
            forall|q: int| 0 <= q < k ==> s[q] != name@,
        decreases upto - k,
    {
        if str_eq(v[k].as_str(), name) {
            assert(s[k as int] == name@);
            return true;
        }
        k = k + 1;
    }
    false
}

/// The first name of `v` that already occurred before it.
pub fn find_repeat(v: &Vec<String>) -> (r: Option<String>)
    ensures
        opt_view(r) == first_repeat(strs_view(v@), 0),
{
    let ghost s = strs_view(v@);
    let mut j: usize = 0;
    while j < v.len()
        invariant
            j <= v@.len(),
            s == strs_view(v@),
            first_repeat(s, 0) == first_repeat(s, j as int),
        decreases v.len() - j,
    {
        if contains_name(v, j, v[j].as_str()) {
            return Some(v[j].clone());
        }
        j = j + 1;
    }
    None
}

/// Where position `j` on holds no name that occurred before, the first repeat from
/// `j` is none.
pub proof fn lemma_first_repeat_none(s: Seq<Seq<char>>, j: int)
    requires
        0 <= j <= s.len(),
    ensures
        (first_repeat(s, j) is None) <==> (forall|a: int, b: int|
            0 <= a < b < s.len() && j <= b ==> s[a] != s[b]),
    decreases s.len() - j,
{
    if j < s.len() {
        lemma_first_repeat_none(s, j + 1);
        if s.take(j).contains(s[j]) {
            let a = choose|a: int| 0 <= a < s.take(j).len() && s.take(j)[a] == s[j];
            assert(s[a] == s[j]);
        } else {
            assert forall|a: int, b: int| 0 <= a < b < s.len() && j <= b && first_repeat(s, j + 1)
                is None implies s[a] != s[b] by {
                if b == j && s[a] == s[b] {
                    assert(s.take(j)[a] == s[j]);
                }
            }
        }
    }
}

/// The names of color schemes.
pub fn names_of_schemes(v: &Vec<ColorScheme>) -> (r: Vec<String>)
    ensures
        strs_view(r@) == scheme_names(schemes_view(v@)),
{
    let mut out: Vec<String> = Vec::new();
    let mut i: usize = 0;
    while i < v.len()
        invariant
            i <= v@.len(),
            out@.len() == i,
            forall|k: int| 0 <= k < i ==> (#[trigger] out@[k])@ == v@[k].name@,
        decreases v.len() - i,
    {
        out.push(v[i].name.clone());
        i = i + 1;
    }
    assert(strs_view(out@) =~= scheme_names(schemes_view(v@)));
    out
}

/// The names of text styles.
pub fn names_of_styles(v: &Vec<TextStyle>) -> (r: Vec<String>)
    ensures
        strs_view(r@) == style_names(styles_view(v@)),
{
    let mut out: Vec<String> = Vec::new();
    let mut i: usize = 0;
    while i < v.len()
        invariant
            i <= v@.len(),
            out@.len() == i,
            forall|k: int| 0 <= k < i ==> (#[trigger] out@[k])@ == v@[k].name@,
        decreases v.len() - i,
    {
        out.push(v[i].name.clone());
        i = i + 1;
    }
    assert(strs_view(out@) =~= style_names(styles_view(v@)));
    out
}

/// The names of boards.
pub fn names_of_boards(v: &Vec<Board>) -> (r: Vec<String>)
    ensures
        strs_view(r@) == board_names(boards_view(v@)),
{
    let mut out: Vec<String> = Vec::new();
    let mut i: usize = 0;
    while i < v.len()
        invariant
            i <= v@.len(),
            out@.len() == i,
            forall|k: int| 0 <= k < i ==> (#[trigger] out@[k])@ == v@[k].name@,
        decreases v.len() - i,
    {
        out.push(v[i].name.clone());
        i = i + 1;
    }
    assert(strs_view(out@) =~= board_names(boards_view(v@)));
    out
}

/// The names of pad sets.
pub fn names_of_padsets(v: &Vec<PadSet>) -> (r: Vec<String>)
    ensures
        strs_view(r@) == padset_names(padsets_view(v@)),
{
    let mut out: Vec<String> = Vec::new();
    let mut i: usize = 0;
    while i < v.len()
        invariant
            i <= v@.len(),
            out@.len() == i,
            forall|k: int| 0 <= k < i ==> (#[trigger] out@[k])@ == v@[k].name@,
        decreases v.len() - i,
    {
        out.push(v[i].name.clone());
        i = i + 1;
    }
    assert(strs_view(out@) =~= padset_names(padsets_view(v@)));
    out
}

/// The message for a repeated name of a component type.
fn duplicate_error(kind: &str, name: &String) -> (r: String)
    ensures
        r@ == duplicate_message(kind@, name@),
{
    concat3(concat("Duplicate '", kind).as_str(), "' name found: ", name.as_str())
}

/// Five pieces of text, one after the other.
fn concat5(a: &str, b: &str, c: &str, d: &str, e: &str) -> (r: String)
    ensures
        r@ == a@ + b@ + c@ + d@ + e@,
{
    concat3(concat3(a, b, c).as_str(), d, e)
}

/// The first board whose color scheme is not among `names`.
fn check_scheme_refs(boards: &Vec<Board>, names: &Vec<String>) -> (r: Option<String>)
    ensures
        opt_view(r) == scheme_ref_error(boards_view(boards@), strs_view(names@), 0),
{
    let ghost bs = boards_view(boards@);
    let mut i: usize = 0;
    while i < boards.len()
        invariant
            i <= boards@.len(),
            bs == boards_view(boards@),
            scheme_ref_error(bs, strs_view(names@), 0) == scheme_ref_error(bs, strs_view(names@), i as int),
        decreases boards.len() - i,
    {
        let b = &boards[i];
        assert(bs[i as int] == b@);
        if let Some(n) = &b.color_scheme {
            if !contains_name(names, names.len(), n.as_str()) {
                assert(strs_view(names@).take(names@.len() as int) =~= strs_view(names@));
                return Some(
                    concat5("Color scheme '", n.as_str(), "' for board '", b.name.as_str(), "' not found in settings"),
                );
            }
            assert(strs_view(names@).take(names@.len() as int) =~= strs_view(names@));
        }
        i = i + 1;
    }
    None
}

/// The first board whose text style is not among `names`.
fn check_style_refs(boards: &Vec<Board>, names: &Vec<String>) -> (r: Option<String>)
    ensures
        opt_view(r) == style_ref_error(boards_view(boards@), strs_view(names@), 0),
{
    let ghost bs = boards_view(boards@);
    let mut i: usize = 0;
    while i < boards.len()
        invariant
            i <= boards@.len(),
            bs == boards_view(boards@),
            style_ref_error(bs, strs_view(names@), 0) == style_ref_error(bs, strs_view(names@), i as int),
        decreases boards.len() - i,
    {
        let b = &boards[i];
        assert(bs[i as int] == b@);
        if let Some(n) = &b.text_style {
            if !contains_name(names, names.len(), n.as_str()) {
                assert(strs_view(names@).take(names@.len() as int) =~= strs_view(names@));
                return Some(
                    concat5("Text style '", n.as_str(), "' for board '", b.name.as_str(), "' not found in settings"),
                );
            }
            assert(strs_view(names@).take(names@.len() as int) =~= strs_view(names@));
        }
        i = i + 1;
    }
    None
}

/// The first modifier pad set of `b` that is not among `names`.
fn check_modifier_refs(b: &Board, names: &Vec<String>) -> (r: Option<String>)
    ensures
        opt_view(r) == modifier_ref_error(b@, strs_view(names@), 0),
{
    let ghost bv = b@;
    let mut k: usize = 0;
    while k < b.modifier_pads.len()
        invariant
            k <= b.modifier_pads@.len(),
            bv == b@,
            bv.modifier_pads.len() == b.modifier_pads@.len(),
            modifier_ref_error(bv, strs_view(names@), 0) == modifier_ref_error(bv, strs_view(names@), k as int),
        decreases b.modifier_pads.len() - k,
    {
        let (m, p) = &b.modifier_pads[k];
        assert(bv.modifier_pads[k as int] == (m@, p@));
        assert(strs_view(names@).take(names@.len() as int) =~= strs_view(names@));
        if !contains_name(names, names.len(), p.as_str()) {
            let head = concat5("Modifier pad set '", p.as_str(), "' not found for board '", b.name.as_str(), "' with modifier '");
            return Some(concat3(head.as_str(), m.as_str(), "'"));
        }
        k = k + 1;
    }
    None
}

/// The first board whose base or modifier pad sets are not among `names`.
fn check_pad_refs(boards: &Vec<Board>, names: &Vec<String>) -> (r: Option<String>)
    ensures
        opt_view(r) == pad_ref_error(boards_view(boards@), strs_view(names@), 0),
{
    let ghost bs = boards_view(boards@);
    let mut i: usize = 0;
    while i < boards.len()
        invariant
            i <= boards@.len(),
            bs == boards_view(boards@),
            pad_ref_error(bs, strs_view(names@), 0) == pad_ref_error(bs, strs_view(names@), i as int),
        decreases boards.len() - i,
    {
        let b = &boards[i];
        assert(bs[i as int] == b@);
        assert(strs_view(names@).take(names@.len() as int) =~= strs_view(names@));
        if let Some(n) = &b.base_pads {
            if !contains_name(names, names.len(), n.as_str()) {
                return Some(concat5("Base pad set '", n.as_str(), "' not found for board '", b.name.as_str(), "'"));
            }
        }
        let m = check_modifier_refs(b, names);
        if m.is_some() {
            return m;
        }
        i = i + 1;
    }
    None
}

/// What is wrong with pad `p` of the pad set named `ps`.
fn check_pad(
    p: &crate::domain::data::Pad,
    ps: &String,
    boards: &Vec<String>,
    schemes: &Vec<String>,
    styles: &Vec<String>,
) -> (r: Option<String>)
    ensures
        opt_view(r) == pad_error(p@, ps@, strs_view(boards@), strs_view(schemes@), strs_view(styles@)),
{
    assert(strs_view(boards@).take(boards@.len() as int) =~= strs_view(boards@));
    assert(strs_view(schemes@).take(schemes@.len() as int) =~= strs_view(schemes@));
    assert(strs_view(styles@).take(styles@.len() as int) =~= strs_view(styles@));
    if let Some(b) = &p.board {
        if !contains_name(boards, boards.len(), b.as_str()) {
            let d = debug_text(&p.header);
            let head = concat5("Invalid board reference '", b.as_str(), "' in pad '", d.as_str(), "' of padset '");
            return Some(concat3(head.as_str(), ps.as_str(), "'"));
        }
    }
    if let Some(n) = &p.color_scheme {
        if !contains_name(schemes, schemes.len(), n.as_str()) {
            let d = debug_text(&p.header);
            let head = concat5("Color scheme '", n.as_str(), "' not found for pad '", d.as_str(), "' in padset '");
            return Some(concat3(head.as_str(), ps.as_str(), "'"));
        }
    }
    if let Some(n) = &p.text_style {
        if !contains_name(styles, styles.len(), n.as_str()) {
            let d = debug_text(&p.header);
            let head = concat5("Text style '", n.as_str(), "' not found for pad '", d.as_str(), "' in padset '");
            return Some(concat3(head.as_str(), ps.as_str(), "'"));
        }
    }
    None
}

/// The first faulty pad of the pad sets.
fn check_cross_refs(
    padsets: &Vec<PadSet>,
    boards: &Vec<String>,
    schemes: &Vec<String>,
    styles: &Vec<String>,
) -> (r: Option<String>)
    ensures
        opt_view(r) == cross_ref_error(
            padsets_view(padsets@),
            strs_view(boards@),
            strs_view(schemes@),
            strs_view(styles@),
            0,
        ),
{
    let ghost pss = padsets_view(padsets@);
    let ghost bn = strs_view(boards@);
    let ghost sn = strs_view(schemes@);
    let ghost tn = strs_view(styles@);
    let mut i: usize = 0;
    while i < padsets.len()
        invariant
            i <= padsets@.len(),
            pss == padsets_view(padsets@),
            bn == strs_view(boards@),
            sn == strs_view(schemes@),
            tn == strs_view(styles@),
            cross_ref_error(pss, bn, sn, tn, 0) == cross_ref_error(pss, bn, sn, tn, i as int),
        decreases padsets.len() - i,
    {
        let ps = &padsets[i];
        let ghost psv = ps@;
        assert(pss[i as int] == psv);
        let mut k: usize = 0;
        while k < ps.items.len()
            invariant
                k <= ps.items@.len(),
                psv == ps@,
                psv.items.len() == ps.items@.len(),
                bn == strs_view(boards@),
                sn == strs_view(schemes@),
                tn == strs_view(styles@),
                items_error(psv, bn, sn, tn, 0) == items_error(psv, bn, sn, tn, k as int),
                i < padsets@.len(),
                pss == padsets_view(padsets@),
                pss[i as int] == psv,
                cross_ref_error(pss, bn, sn, tn, 0) == cross_ref_error(pss, bn, sn, tn, i as int),
            decreases ps.items.len() - k,
        {
            assert(psv.items[k as int] == ps.items@[k as int]@);
            let e = check_pad(&ps.items[k], &ps.name, boards, schemes, styles);
            if e.is_some() {
                return e;
            }
            k = k + 1;
        }
        i = i + 1;
    }
    None
}

/// Checks of settings data: unique names and existing references.
pub trait SettingsValidator {
    /// The error of the integrity check, if any.
    spec fn integrity_error_spec(&self) -> Option<Seq<char>>;

    /// The error of the uniqueness check, if any.
    spec fn uniqueness_error_spec(&self) -> Option<Seq<char>>;

    /// Whether there are boards and every reference of boards and pads exists.
    fn validate_data_integrity(&self) -> (r: Result<(), String>)
        ensures
            match r {
                Ok(_) => self.integrity_error_spec() is None,
                Err(e) => self.integrity_error_spec() == Some(e@),
            },
    ;

    /// Whether no two components of the same type share a name.
    fn validate_name_uniquenes(&self) -> (r: Result<(), String>)
        ensures
            match r {
                Ok(_) => self.uniqueness_error_spec() is None,
                Err(e) => self.uniqueness_error_spec() == Some(e@),
            },
    ;
}

impl SettingsData {
    /// The name lists of the four component types.
    pub open spec fn names_unique_error(&self) -> Option<Seq<char>> {
        unique_names_error(
            scheme_names(schemes_view(self.color_schemes@)),
            style_names(styles_view(self.text_styles@)),
            board_names(boards_view(self.boards@)),
            padset_names(padsets_view(self.padsets@)),
        )
    }

    /// The integrity error of the data, if any.
    pub open spec fn data_integrity_error(&self) -> Option<Seq<char>> {
        integrity_error(
            schemes_view(self.color_schemes@),
            styles_view(self.text_styles@),
            boards_view(self.boards@),
            padsets_view(self.padsets@),
        )
    }

    /// Checks that no two components of the same type have equal names.
    pub fn validate_unique_names(&self) -> (r: Result<(), String>)
        ensures
            match r {
                Ok(_) => self.names_unique_error() is None,
                Err(e) => self.names_unique_error() == Some(e@),
            },
    {
        let cs = names_of_schemes(&self.color_schemes);
        if let Some(n) = find_repeat(&cs) {
            return Err(duplicate_error("ColorScheme", &n));
        }
        let ts = names_of_styles(&self.text_styles);
        if let Some(n) = find_repeat(&ts) {
            return Err(duplicate_error("TextStyle", &n));
        }
        let bs = names_of_boards(&self.boards);
        if let Some(n) = find_repeat(&bs) {
            return Err(duplicate_error("Board", &n));
        }
        let ps = names_of_padsets(&self.padsets);
        if let Some(n) = find_repeat(&ps) {
            return Err(duplicate_error("PadSet", &n));
        }
        Ok(())
    }

    /// Checks that there are boards and that every color scheme, text style, pad
    /// set and board referred to exists.
    pub fn check_data_integrity(&self) -> (r: Result<(), String>)
        ensures
            match r {
                Ok(_) => self.data_integrity_error() is None,
                Err(e) => self.data_integrity_error() == Some(e@),
            },
    {
        if self.boards.len() == 0 {
            return Err(owned("No boards defined in settings"));
        }
        let cs = names_of_schemes(&self.color_schemes);
        let ts = names_of_styles(&self.text_styles);
        let ps = names_of_padsets(&self.padsets);
        let bs = names_of_boards(&self.boards);
        if let Some(e) = check_scheme_refs(&self.boards, &cs) {
            return Err(concat("Color scheme validation failed: ", e.as_str()));
        }
        if let Some(e) = check_style_refs(&self.boards, &ts) {
            return Err(concat("Text style validation failed: ", e.as_str()));
        }
        if let Some(e) = check_pad_refs(&self.boards, &ps) {
            return Err(concat("Pad reference validation failed: ", e.as_str()));
        }
        if let Some(e) = check_cross_refs(&self.padsets, &bs, &cs, &ts) {
            return Err(concat("Cross board validation failed: ", e.as_str()));
        }
        Ok(())
    }
}

impl SettingsValidator for SettingsData {
    open spec fn integrity_error_spec(&self) -> Option<Seq<char>> {
        self.data_integrity_error()
    }

    open spec fn uniqueness_error_spec(&self) -> Option<Seq<char>> {
        self.names_unique_error()
    }

    fn validate_data_integrity(&self) -> (r: Result<(), String>) {
        self.check_data_integrity()
    }

    fn validate_name_uniquenes(&self) -> (r: Result<(), String>) {
        self.validate_unique_names()
    }
}

/// The uniqueness check passes exactly when, for each of the four component types,
/// no two components share a name.
pub proof fn law_unique_names_ok_iff_distinct(d: &SettingsData)
    ensures
        d.names_unique_error() is None <==> (all_distinct(scheme_names(schemes_view(d.color_schemes@)))
            && all_distinct(style_names(styles_view(d.text_styles@)))
            && all_distinct(board_names(boards_view(d.boards@)))
            && all_distinct(padset_names(padsets_view(d.padsets@)))),
{
    lemma_first_repeat_none(scheme_names(schemes_view(d.color_schemes@)), 0);
    lemma_first_repeat_none(style_names(styles_view(d.text_styles@)), 0);
    lemma_first_repeat_none(board_names(boards_view(d.boards@)), 0);
    lemma_first_repeat_none(padset_names(padsets_view(d.padsets@)), 0);
}

} // verus!
