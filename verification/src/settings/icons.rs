//! The icons that the settings name, and the check of them given whether each is
//! among the resources.
use vstd::prelude::*;
use crate::domain::data::{BoardV, PadSetV, PadV};
use crate::settings::persistence::{boards_view, padsets_view, SettingsData};
use crate::settings::validation::{debug_text, debug_text_of};
use crate::text::concat3;

verus! {

/// An icon that the settings name, with the message for when it is missing.
pub type IconRef = (Seq<char>, Seq<char>);

/// The message for a missing board icon.
pub open spec fn board_icon_missing(icon: Seq<char>, board: Seq<char>) -> Seq<char> {
    "Icon '"@ + icon + "' not found for board '"@ + board + "'"@
}

/// The message for a missing pad icon.
pub open spec fn pad_icon_missing(icon: Seq<char>, header: Option<Seq<char>>, padset: Seq<char>) -> Seq<char> {
    "Icon '"@ + icon + "' not found for pad '"@ + debug_text_of(header) + "' in padset '"@ + padset + "'"@
}

/// The icons of the boards that set a non-empty one, in order.
pub open spec fn board_icon_refs(bs: Seq<BoardV>) -> Seq<IconRef>
    decreases bs.len(),
{
    if bs.len() == 0 {
        Seq::empty()
    } else {
        let b = bs.last();
        board_icon_refs(bs.drop_last()) + match b.icon {
            Some(icon) => if icon.len() > 0 {
                seq![(icon, board_icon_missing(icon, b.name))]
            } else {
                Seq::empty()
            },
            None => Seq::empty(),
        }
    }
}

/// The icons of the pads of pad set `padset` that set one, in order.
pub open spec fn pad_icon_refs(ps: Seq<PadV>, padset: Seq<char>) -> Seq<IconRef>
    decreases ps.len(),
{
    if ps.len() == 0 {
        Seq::empty()
    } else {
        let p = ps.last();
        pad_icon_refs(ps.drop_last(), padset) + match p.icon {
            Some(icon) => seq![(icon, pad_icon_missing(icon, p.header, padset))],
            None => Seq::empty(),
        }
    }
}

/// The icons of the pads of all pad sets, pad set by pad set.
pub open spec fn padset_icon_refs(ss: Seq<PadSetV>) -> Seq<IconRef>
    decreases ss.len(),
{
    if ss.len() == 0 {
        Seq::empty()
    } else {
        padset_icon_refs(ss.drop_last()) + pad_icon_refs(ss.last().items, ss.last().name)
    }
}

/// The icons that the settings name, each with the message for when it is
/// missing: the boards' icons, then the pads' icons.
pub open spec fn icon_refs(boards: Seq<BoardV>, padsets: Seq<PadSetV>) -> Seq<IconRef> {
    board_icon_refs(boards) + padset_icon_refs(padsets)
}

/// The message of the first icon, from position `k` on, whose check in
/// `available` came back false; none when every checked icon is there.
pub open spec fn first_missing_from(refs: Seq<IconRef>, available: Seq<bool>, k: int) -> Option<Seq<char>>
    decreases refs.len() - k,
{
    if k < 0 || k >= refs.len() || k >= available.len() {
        None
    } else if !available[k] {
        Some(refs[k].1)
    } else {
        first_missing_from(refs, available, k + 1)
    }
}

/// The message of the first icon whose check in `available` came back false
/// (`available[i]` answers for the `i`-th icon); none when every checked icon
/// is there.
pub open spec fn first_missing(refs: Seq<IconRef>, available: Seq<bool>) -> Option<Seq<char>> {
    first_missing_from(refs, available, 0)
}

/// The views of icon references.
pub open spec fn refs_view(v: Seq<(String, String)>) -> Seq<IconRef> {
    v.map_values(|p: (String, String)| (p.0@, p.1@))
}

/// The icons that the settings name, each with the message for when it is missing,
/// in the order `validate_icons_given` takes their existence checks.
pub fn collect_icon_refs(settings: &SettingsData) -> (r: Vec<(String, String)>)
    ensures
        refs_view(r@) == icon_refs(boards_view(settings.boards@), padsets_view(settings.padsets@)),
{
    let ghost bs = boards_view(settings.boards@);
    let ghost ss = padsets_view(settings.padsets@);
    let mut out: Vec<(String, String)> = Vec::new();
    let mut i: usize = 0;
    while i < settings.boards.len()
        invariant
            i <= settings.boards@.len(),
            bs == boards_view(settings.boards@),
            refs_view(out@) == board_icon_refs(bs.take(i as int)),
        decreases settings.boards.len() - i,
    {
        let b = &settings.boards[i];
        assert(bs.take(i + 1).drop_last() =~= bs.take(i as int));
        assert(bs.take(i + 1).last() == b@);
        let ghost before = refs_view(out@);
        let icon = b.icon();
        if !icon.as_str().is_empty() {
            let head = concat3("Icon '", icon.as_str(), "' not found for board '");
            let msg = concat3(head.as_str(), b.name.as_str(), "'");
            out.push((icon, msg));
            assert(refs_view(out@) =~= before + seq![(icon@, board_icon_missing(icon@, b.name@))]);
        } else {
            assert(refs_view(out@) =~= before + Seq::<IconRef>::empty());
        }
        i = i + 1;
    }
    assert(bs.take(settings.boards.len() as int) =~= bs);
    let ghost board_part = refs_view(out@);
    let mut j: usize = 0;
    while j < settings.padsets.len()
        invariant
            j <= settings.padsets@.len(),
            ss == padsets_view(settings.padsets@),
            refs_view(out@) == board_part + padset_icon_refs(ss.take(j as int)),
        decreases settings.padsets.len() - j,
    {
        let set = &settings.padsets[j];
        assert(ss.take(j + 1).drop_last() =~= ss.take(j as int));
        assert(ss.take(j + 1).last() == set@);
        let ghost ps = set@.items;
        let ghost start = refs_view(out@);
        let mut k: usize = 0;
        while k < set.items.len()
            invariant
                k <= set.items@.len(),
                ps == set@.items,
                ps.len() == set.items@.len(),
                forall|q: int| 0 <= q < ps.len() ==> #[trigger] ps[q] == set.items@[q]@,
                refs_view(out@) == start + pad_icon_refs(ps.take(k as int), set.name@),
            decreases set.items.len() - k,
        {
            let p = &set.items[k];
            assert(ps.take(k + 1).drop_last() =~= ps.take(k as int));
            assert(ps.take(k + 1).last() == p@);
            let ghost before = refs_view(out@);
            match &p.icon {
                Some(icon) => {
                    let h = debug_text(&p.header);
                    let head = concat3("Icon '", icon.as_str(), "' not found for pad '");
                    let mid = concat3(head.as_str(), h.as_str(), "' in padset '");
                    let msg = concat3(mid.as_str(), set.name.as_str(), "'");
                    out.push((icon.clone(), msg));
                    assert(refs_view(out@) =~= before + seq![(icon@, pad_icon_missing(icon@, p@.header, set.name@))]);
                },
                None => {
                    assert(refs_view(out@) =~= before + Seq::<IconRef>::empty());
                },
            }
            k = k + 1;
        }
        assert(ps.take(set.items.len() as int) =~= ps);
        j = j + 1;
    }
    assert(ss.take(settings.padsets.len() as int) =~= ss);
    out
}

/// Checks the icons given what their existence checks came back with
/// (`available[i]` answers for the `i`-th icon that the settings name, boards'
/// icons first, then the pads'): the message of the first missing one, else
/// success.
pub fn validate_icons_given(settings: &SettingsData, available: &Vec<bool>) -> (r: Result<(), String>)
    ensures
        match first_missing(icon_refs(boards_view(settings.boards@), padsets_view(settings.padsets@)), available@) {
            Some(m) => r matches Err(e) && e@ == m,
            None => r is Ok,
        },
{
    let refs = collect_icon_refs(settings);
    let ghost rs = refs_view(refs@);
    let mut i: usize = 0;
    while i < refs.len() && i < available.len()
        invariant
            i <= refs@.len(),
            rs == refs_view(refs@),
            rs == icon_refs(boards_view(settings.boards@), padsets_view(settings.padsets@)),
            first_missing_from(rs, available@, i as int) == first_missing(rs, available@),
        decreases refs.len() - i,
    {
        if !available[i] {
            let msg = refs[i].1.clone();
            assert(rs[i as int].1 == refs@[i as int].1@);
            assert(first_missing_from(rs, available@, i as int) == Some(rs[i as int].1));
            assert(msg@ == rs[i as int].1);
            return Err(msg);
        }
        i = i + 1;
    }
    Ok(())
}

} // verus!
