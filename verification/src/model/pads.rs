//! Pads as a board shows them, placed on the keypad, and the pad sets made of
//! them: looking a pad up by its place, overlaying pads, filling the gaps up to
//! the last place, and storing an edited pad into its pad set.
use vstd::prelude::*;
use crate::domain::data::{
    pads_view, ColorScheme, ColorSchemeV, Pad as StoredPad, PadSet, PadSetV, PadV, TextStyle,
    TextStyleV,
};
use crate::model::data::PadId;
use crate::model::handle::PadSetHandle;
use crate::settings::persistence::padsets_view;
use crate::settings::settings::{
    keeps_boards, keeps_options, keeps_schemes, keeps_styles, lemma_position_from, lookup, name_position,
    Settings,
};
use crate::settings::validation::{padset_names, scheme_names, style_names};

verus! {

/// A pad as a board shows it: its place on the keypad, what is stored for it, and
/// the color scheme and text style found for it.
#[derive(Debug)]
pub struct Pad {
    pub pad_id: PadId,
    pub data: StoredPad,
    pub color_scheme: Option<ColorScheme>,
    pub text_style: Option<TextStyle>,
}

/// What a shown pad stands for.
pub struct PadModelV {
    pub pad_id: PadId,
    pub data: PadV,
    pub color_scheme: Option<ColorSchemeV>,
    pub text_style: Option<TextStyleV>,
}

/// The view of an optional color scheme.
pub open spec fn opt_scheme_view(o: Option<ColorScheme>) -> Option<ColorSchemeV> {
    match o {
        Some(c) => Some(c@),
        None => None,
    }
}

/// The view of an optional text style.
pub open spec fn opt_style_view(o: Option<TextStyle>) -> Option<TextStyleV> {
    match o {
        Some(t) => Some(t@),
        None => None,
    }
}

impl View for Pad {
    type V = PadModelV;

    open spec fn view(&self) -> PadModelV {
        PadModelV {
            pad_id: self.pad_id,
            data: self.data@,
            color_scheme: opt_scheme_view(self.color_scheme),
            text_style: opt_style_view(self.text_style),
        }
    }
}

/// The views of a list of shown pads.
pub open spec fn model_pads_view(v: Seq<Pad>) -> Seq<PadModelV> {
    v.map_values(|p: Pad| p@)
}

/// The pad at `id` with nothing stored for it.
pub open spec fn blank_view(id: PadId) -> PadModelV {
    PadModelV { pad_id: id, data: StoredPad::empty_view(), color_scheme: None, text_style: None }
}

/// The pad as stored: its data, with the names of its color scheme and text
/// style.
pub open spec fn as_data_spec(p: PadModelV) -> PadV {
    PadV {
        color_scheme: match p.color_scheme {
            Some(c) => Some(c.name),
            None => None,
        },
        text_style: match p.text_style {
            Some(t) => Some(t.name),
            None => None,
        },
        ..p.data
    }
}

fn clone_scheme(o: &Option<ColorScheme>) -> (r: Option<ColorScheme>)
    ensures
        opt_scheme_view(r) == opt_scheme_view(*o),
{
    match o {
        Some(c) => Some(c.clone()),
        None => None,
    }
}

fn clone_style(o: &Option<TextStyle>) -> (r: Option<TextStyle>)
    ensures
        opt_style_view(r) == opt_style_view(*o),
{
    match o {
        Some(t) => Some(t.clone()),
        None => None,
    }
}

impl Clone for Pad {
    fn clone(&self) -> (r: Self)
        ensures
            r@ == self@,
    {
        Pad {
            pad_id: self.pad_id,
            data: self.data.clone(),
            color_scheme: clone_scheme(&self.color_scheme),
            text_style: clone_style(&self.text_style),
        }
    }
}

impl Pad {
    /// The pad at `pad_id` with the given data, color scheme and text style.
    pub fn new(
        pad_id: PadId,
        pad: StoredPad,
        color_scheme: Option<ColorScheme>,
        text_style: Option<TextStyle>,
    ) -> (r: Self)
        ensures
            r@ == (PadModelV {
                pad_id,
                data: pad@,
                color_scheme: opt_scheme_view(color_scheme),
                text_style: opt_style_view(text_style),
            }),
    {
        Pad { pad_id, data: pad, color_scheme, text_style }
    }

    /// The pad at `pad_id` with nothing stored for it.
    pub fn blank(pad_id: PadId) -> (r: Self)
        ensures
            r@ == blank_view(pad_id),
    {
        Pad { pad_id, data: StoredPad::default(), color_scheme: None, text_style: None }
    }

    /// The pad's place on the keypad.
    pub fn pad_id(&self) -> (r: PadId)
        ensures
            r == self.pad_id,
    {
        self.pad_id
    }

    /// The pad as stored: its data, with the names of its color scheme and text
    /// style.
    pub fn as_data(&self) -> (r: StoredPad)
        ensures
            r@ == as_data_spec(self@),
    {
        let mut pad = self.data.clone();
        pad.color_scheme = match &self.color_scheme {
            Some(c) => Some(c.name.clone()),
            None => None,
        };
        pad.text_style = match &self.text_style {
            Some(t) => Some(t.name.clone()),
            None => None,
        };
        pad
    }
}

/// The position of the first pad at `id`, from position `k` on.
pub open spec fn position_of_from(ps: Seq<PadModelV>, id: PadId, k: int) -> Option<int>
    decreases ps.len() - k,
{
    if k < 0 || k >= ps.len() {
        None
    } else if ps[k].pad_id == id {
        Some(k)
    } else {
        position_of_from(ps, id, k + 1)
    }
}

/// The position of the first pad at `id`.
pub open spec fn position_of(ps: Seq<PadModelV>, id: PadId) -> Option<int> {
    position_of_from(ps, id, 0)
}

/// A found position holds a pad at `id`.
proof fn lemma_position_of(ps: Seq<PadModelV>, id: PadId, k: int)
    requires
        0 <= k,
    ensures
        match position_of_from(ps, id, k) {
            Some(i) => k <= i < ps.len() && ps[i].pad_id == id,
            None => true,
        },
    decreases ps.len() - k,
{
    if k < ps.len() && ps[k].pad_id != id {
        lemma_position_of(ps, id, k + 1);
    }
}

/// The pads with `p` in place of the first pad at its place, or added after them
/// when none is there.
pub open spec fn updated(ps: Seq<PadModelV>, p: PadModelV) -> Seq<PadModelV> {
    match position_of(ps, p.pad_id) {
        Some(i) => ps.update(i, p),
        None => ps.push(p),
    }
}

/// The pads with each of `news` put in, in order, as `updated` does.
pub open spec fn overlaid(ps: Seq<PadModelV>, news: Seq<PadModelV>) -> Seq<PadModelV>
    decreases news.len(),
{
    if news.len() == 0 {
        ps
    } else {
        updated(overlaid(ps, news.drop_last()), news.last())
    }
}

/// The first pad at `id`, or a blank pad there when there is none.
pub open spec fn pad_at(ps: Seq<PadModelV>, id: PadId) -> PadModelV {
    match position_of(ps, id) {
        Some(i) => ps[i],
        None => blank_view(id),
    }
}

/// The position of the first pad at `id`, if any.
fn find_pad(pads: &Vec<Pad>, id: PadId) -> (r: Option<usize>)
    ensures
        match r {
            Some(i) => i < pads@.len() && position_of(model_pads_view(pads@), id) == Some(i as int),
            None => position_of(model_pads_view(pads@), id) is None,
        },
{
    let ghost ps = model_pads_view(pads@);
    let mut i: usize = 0;
    while i < pads.len()
        invariant
            i <= pads@.len(),
            ps == model_pads_view(pads@),
            position_of_from(ps, id, i as int) == position_of(ps, id),
        decreases pads.len() - i,
    {
        if pads[i].pad_id == id {
            return Some(i);
        }
        i = i + 1;
    }
    None
}

/// The first pad at `id`, or a blank pad there when there is none.
pub fn pad(pads: &Vec<Pad>, id: PadId) -> (r: Pad)
    ensures
        r@ == pad_at(model_pads_view(pads@), id),
{
    match find_pad(pads, id) {
        Some(i) => pads[i].clone(),
        None => Pad::blank(id),
    }
}

/// Puts `pad` in place of the first pad at its place, or adds it after them when
/// none is there.
pub fn update(pads: &mut Vec<Pad>, pad: Pad)
    ensures
        model_pads_view(final(pads)@) == updated(model_pads_view(old(pads)@), pad@),
{
    let ghost p = pad@;
    match find_pad(pads, pad.pad_id) {
        Some(i) => {
            pads.set(i, pad);
            assert(model_pads_view(pads@) =~= model_pads_view(old(pads)@).update(i as int, p));
        },
        None => {
            pads.push(pad);
            assert(model_pads_view(pads@) =~= model_pads_view(old(pads)@).push(p));
        },
    }
}

/// A copy of a list of shown pads.
pub fn clone_model_pads(v: &Vec<Pad>) -> (r: Vec<Pad>)
    ensures
        model_pads_view(r@) == model_pads_view(v@),
{
    let mut out: Vec<Pad> = Vec::new();
    let mut i: usize = 0;
    while i < v.len()
        invariant
            i <= v@.len(),
            out@.len() == i,
            forall|k: int| 0 <= k < i ==> (#[trigger] out@[k])@ == v@[k]@,
        decreases v.len() - i,
    {
        out.push(v[i].clone());
        i = i + 1;
    }
    assert(model_pads_view(out@) =~= model_pads_view(v@));
    out
}

/// The pads with each of `news` put in, in order: a new pad replaces the first pad
/// at its place, or is added after them when none is there.
pub fn overlay(pads: &Vec<Pad>, news: Vec<Pad>) -> (r: Vec<Pad>)
    ensures
        model_pads_view(r@) == overlaid(model_pads_view(pads@), model_pads_view(news@)),
{
    let ghost ns = model_pads_view(news@);
    let mut result = clone_model_pads(pads);
    let mut i: usize = 0;
    while i < news.len()
        invariant
            i <= news@.len(),
            ns == model_pads_view(news@),
            model_pads_view(result@) == overlaid(model_pads_view(pads@), ns.take(i as int)),
        decreases news.len() - i,
    {
        assert(ns.take(i + 1).drop_last() =~= ns.take(i as int));
        update(&mut result, news[i].clone());
        i = i + 1;
    }
    assert(ns.take(news.len() as int) =~= ns);
    result
}


/// The pad set of a name in the settings, if any.
pub open spec fn padset_named(s: &Settings, name: Seq<char>) -> Option<PadSetV> {
    lookup(s.padsets_v(), padset_names(s.padsets_v()), name)
}

/// The shown pads as stored.
pub open spec fn stored_pads(ps: Seq<PadModelV>) -> Seq<PadV> {
    ps.map_values(|p: PadModelV| as_data_spec(p))
}

/// The highest keypad number among the places of the pads; 1 when there are none.
pub open spec fn max_num(ps: Seq<PadModelV>) -> int
    decreases ps.len(),
{
    if ps.len() == 0 {
        1
    } else {
        let m = max_num(ps.drop_last());
        let n = ps.last().pad_id.num();
        if n > m {
            n
        } else {
            m
        }
    }
}

/// The pads at every place from the first up to the highest place taken: the
/// first pad at each place, or a blank pad where there is none.
pub open spec fn flattened(ps: Seq<PadModelV>) -> Seq<PadModelV> {
    Seq::new(max_num(ps) as nat, |i: int| pad_at(ps, PadId::of_num(i + 1)))
}

/// The pads at every place from the first up to the highest place taken: the
/// first pad at each place, or a blank pad where there is none.
pub fn flatten(pads: &Vec<Pad>) -> (r: Vec<Pad>)
    ensures
        model_pads_view(r@) == flattened(model_pads_view(pads@)),
{
    let ghost ps = model_pads_view(pads@);
    let mut m: i32 = 1;
    let mut i: usize = 0;
    while i < pads.len()
        invariant
            i <= pads@.len(),
            ps == model_pads_view(pads@),
            m == max_num(ps.take(i as int)),
            1 <= m <= 9,
        decreases pads.len() - i,
    {
        assert(ps.take(i + 1).drop_last() =~= ps.take(i as int));
        assert(ps.take(i + 1).last() == ps[i as int]);
        let n = pads[i].pad_id.as_keypad_int();
        if n > m {
            m = n;
        }
        i = i + 1;
    }
    assert(ps.take(pads.len() as int) =~= ps);
    let mut out: Vec<Pad> = Vec::new();
    let mut k: i32 = 1;
    while k <= m
        invariant
            1 <= k <= m + 1,
            m <= 9,
            m == max_num(ps),
            ps == model_pads_view(pads@),
            model_pads_view(out@) == Seq::new((k - 1) as nat, |j: int| pad_at(ps, PadId::of_num(j + 1))),
        decreases m + 1 - k,
    {
        let id = PadId::from_keypad_int(k);
        let p = pad(pads, id);
        let ghost before = model_pads_view(out@);
        let ghost pv = p@;
        out.push(p);
        proof {
            assert(model_pads_view(out@) =~= before.push(pv));
            assert(model_pads_view(out@) =~= Seq::new(k as nat, |j: int| pad_at(ps, PadId::of_num(j + 1))));
        }
        k = k + 1;
    }
    assert(model_pads_view(out@) =~= flattened(ps));
    out
}

/// The shown pads of stored pads: the `i`-th at the `i`-th place, with the color
/// scheme and the text style of the names it gives, where there are such.
pub open spec fn converted(
    items: Seq<PadV>,
    schemes: Seq<ColorSchemeV>,
    styles: Seq<TextStyleV>,
) -> Seq<PadModelV> {
    Seq::new(
        items.len(),
        |i: int|
            PadModelV {
                pad_id: PadId::of_num(i + 1),
                data: items[i],
                color_scheme: match items[i].color_scheme {
                    Some(n) => lookup(schemes, scheme_names(schemes), n),
                    None => None,
                },
                text_style: match items[i].text_style {
                    Some(n) => lookup(styles, style_names(styles), n),
                    None => None,
                },
            },
    )
}

/// The shown pads of stored pads: the `i`-th at the `i`-th place (so at most nine
/// of them), with the color scheme and the text style of the names it gives where
/// the settings have such.
pub fn convert_padset(pads: &Vec<StoredPad>, settings: &Settings) -> (r: Vec<Pad>)
    requires
        pads@.len() <= 9,
    ensures
        model_pads_view(r@) == converted(pads_view(pads@), settings.schemes_v(), settings.styles_v()),
{
    let ghost target = converted(pads_view(pads@), settings.schemes_v(), settings.styles_v());
    let mut out: Vec<Pad> = Vec::new();
    let mut i: usize = 0;
    while i < pads.len()
        invariant
            i <= pads@.len() <= 9,
            target == converted(pads_view(pads@), settings.schemes_v(), settings.styles_v()),
            out@.len() == i,
            forall|k: int| 0 <= k < i ==> (#[trigger] out@[k])@ == target[k],
        decreases pads.len() - i,
    {
        let p = &pads[i];
        let color_scheme = match &p.color_scheme {
            Some(n) => settings.get_color_scheme(n.as_str()),
            None => None,
        };
        let text_style = match &p.text_style {
            Some(n) => settings.get_text_style(n.as_str()),
            None => None,
        };
        let id = PadId::from_keypad_int((i + 1) as i32);
        out.push(Pad::new(id, p.clone(), color_scheme, text_style));
        i = i + 1;
    }
    assert(model_pads_view(out@) =~= target);
    out
}

impl PadSetHandle {
    /// The shown pads of the pad set, or the error that there is no such pad set.
    pub fn pads(&self, settings: &Settings) -> (r: Result<Vec<Pad>, String>)
        requires
            padset_named(settings, self.name_spec()) matches Some(ps) ==> ps.items.len() <= 9,
        ensures
            match r {
                Ok(v) => padset_named(settings, self.name_spec()) matches Some(ps) && model_pads_view(v@)
                    == converted(ps.items, settings.schemes_v(), settings.styles_v()),
                Err(e) => padset_named(settings, self.name_spec()) is None
                    && e@ == "PadSet '"@ + self.name_spec() + "' not found"@,
            },
    {
        let padset = settings.get_padset(self.name())?;
        Ok(convert_padset(&padset.items, settings))
    }

    /// Stores `pad` into the pad set: the shown pads with `pad` put in its place,
    /// every place up to the highest filled, each stored with the names of its
    /// color scheme and text style. The error that there is no such pad set
    /// leaves the settings as they were.
    pub fn set_pad(&self, settings: &mut Settings, pad: Pad) -> (r: Result<(), String>)
        requires
            padset_named(&*old(settings), self.name_spec()) matches Some(ps) ==> ps.items.len() <= 9,
        ensures
            match r {
                Ok(_) => padset_named(&*old(settings), self.name_spec()) matches Some(ps)
                    && final(settings).padsets_v() == old(settings).padsets_v().update(
                    name_position(padset_names(old(settings).padsets_v()), self.name_spec())->0,
                    PadSetV {
                        name: self.name_spec(),
                        items: stored_pads(
                            flattened(
                                updated(
                                    converted(ps.items, old(settings).schemes_v(), old(settings).styles_v()),
                                    pad@,
                                ),
                            ),
                        ),
                    },
                ) && final(settings).dirty_spec(),
                Err(e) => padset_named(&*old(settings), self.name_spec()) is None
                    && e@ == "PadSet '"@ + self.name_spec() + "' not found"@
                    && *final(settings) == *old(settings),
            },
            keeps_options(old(settings), final(settings)),
            keeps_schemes(old(settings), final(settings)),
            keeps_styles(old(settings), final(settings)),
            keeps_boards(old(settings), final(settings)),
    {
        let shown = match self.pads(settings) {
            Ok(v) => v,
            Err(e) => return Err(e),
        };
        let ghost p = pad@;
        let mut news: Vec<Pad> = Vec::new();
        news.push(pad);
        let ghost sv = model_pads_view(shown@);
        let ghost ns = model_pads_view(news@);
        let merged = overlay(&shown, news);
        proof {
            assert(ns =~= seq![p]);
            assert(ns.drop_last() =~= Seq::<PadModelV>::empty());
            assert(overlaid(sv, Seq::<PadModelV>::empty()) == sv);
            assert(overlaid(sv, ns) == updated(sv, p));
        }
        let flat = flatten(&merged);
        let mut items: Vec<StoredPad> = Vec::new();
        let mut i: usize = 0;
        while i < flat.len()
            invariant
                i <= flat@.len(),
                items@.len() == i,
                forall|k: int| 0 <= k < i ==> (#[trigger] items@[k])@ == as_data_spec(flat@[k]@),
            decreases flat.len() - i,
        {
            items.push(flat[i].as_data());
            i = i + 1;
        }
        proof {
            assert(pads_view(items@) =~= stored_pads(model_pads_view(flat@)));
        }
        let ghost iv = pads_view(items@);
        let new_set = PadSet::new(self.name(), items);
        let r = settings.set_padset(new_set);
        proof {
            if r is Ok {
                let names = padset_names(old(settings).padsets_v());
                lemma_position_from(names, self.name_spec(), 0);
                assert(names.len() == old(settings).data_spec().padsets@.len());
                let pos = name_position(names, self.name_spec())->0;
                assert(padsets_view(final(settings).data_spec().padsets@) =~= padsets_view(
                    old(settings).data_spec().padsets@,
                ).update(pos, PadSetV { name: self.name_spec(), items: iv }));
            }
        }
        r
    }
}

} // verus!
