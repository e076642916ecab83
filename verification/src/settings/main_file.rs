//! What the main settings file holds when the settings are saved: the options,
//! the components stored in no other file, and the names of the other files.
use vstd::prelude::*;
use crate::domain::data::strs_view;
use crate::domain::integration::opt_view;
use crate::settings::persistence::{
    boards_view, padsets_view, schemes_view, styles_view, ComponentsData, ComponentsV, LayoutSettings,
    SeparatedComponents, SettingsData, SourceGroup,
};
use crate::text::{sort_strings, sorted_strs};

verus! {

/// The files named among the keys, in order, leaving out the main file (`None`).
pub open spec fn present_keys(ks: Seq<Option<Seq<char>>>) -> Seq<Seq<char>>
    decreases ks.len(),
{
    if ks.len() == 0 {
        Seq::empty()
    } else {
        present_keys(ks.drop_last()) + match ks.last() {
            Some(k) => seq![k],
            None => Seq::empty(),
        }
    }
}

/// No components.
pub open spec fn no_components() -> ComponentsV {
    ComponentsV {
        color_schemes: Seq::empty(),
        text_styles: Seq::empty(),
        boards: Seq::empty(),
        padsets: Seq::empty(),
    }
}

/// The components of the first group, from position `k` on, stored in the main
/// file; none when there is no such group.
pub open spec fn main_components_from(gs: Seq<SourceGroup>, k: int) -> ComponentsV
    decreases gs.len() - k,
{
    if k < 0 || k >= gs.len() {
        no_components()
    } else if gs[k].source is None {
        gs[k].components@
    } else {
        main_components_from(gs, k + 1)
    }
}

/// Two layouts are the same.
pub open spec fn same_layout(a: Option<LayoutSettings>, b: Option<LayoutSettings>) -> bool {
    match (a, b) {
        (Some(x), Some(y)) => x.x == y.x && x.y == y.y && x.width == y.width && x.height == y.height
            && x.window_style@ == y.window_style@,
        (None, None) => true,
        _ => false,
    }
}

impl SeparatedComponents {
    /// The files other than the main file that the groups are stored in, sorted.
    pub fn included_files(&self) -> (r: Vec<String>)
        ensures
            sorted_strs(strs_view(r@)),
            strs_view(r@).to_multiset() == present_keys(self.keys_spec()).to_multiset(),
    {
        let ghost ks = self.keys_spec();
        let mut out: Vec<String> = Vec::new();
        let mut i: usize = 0;
        while i < self.groups.len()
            invariant
                i <= self.groups@.len(),
                ks == self.keys_spec(),
                strs_view(out@) == present_keys(ks.take(i as int)),
            decreases self.groups.len() - i,
        {
            assert(ks.take(i + 1).drop_last() =~= ks.take(i as int));
            assert(ks.take(i + 1).last() == opt_view(self.groups@[i as int].source));
            let ghost before = strs_view(out@);
            match &self.groups[i].source {
                Some(f) => {
                    out.push(f.clone());
                    assert(strs_view(out@) =~= before + seq![f@]);
                },
                None => {
                    assert(strs_view(out@) =~= before + Seq::<Seq<char>>::empty());
                },
            }
            i = i + 1;
        }
        assert(ks.take(self.groups.len() as int) =~= ks);
        let r = sort_strings(out);
        assert(r@.map_values(|s: String| s@) == strs_view(r@));
        r
    }
}

impl SettingsData {
    /// What the main settings file holds when the settings are saved, given them
    /// split by file: the options of these settings, the components of the group
    /// stored in the main file (none when there is no such group), the other files
    /// sorted as its includes, and no mappings.
    pub fn main_file_data(&self, separated: &SeparatedComponents) -> (r: SettingsData)
        ensures
            r.timeout == self.timeout,
            r.feedback == self.feedback,
            r.editor@ == self.editor@,
            same_layout(r.layout, self.layout),
            r.natural_key_order == self.natural_key_order,
            (ComponentsV {
                color_schemes: schemes_view(r.color_schemes@),
                text_styles: styles_view(r.text_styles@),
                boards: boards_view(r.boards@),
                padsets: padsets_view(r.padsets@),
            }) == main_components_from(separated.groups@, 0),
            sorted_strs(strs_view(r.includes@)),
            strs_view(r.includes@).to_multiset() == present_keys(separated.keys_spec()).to_multiset(),
            r.source_mappings@.len() == 0,
    {
        let mut main = ComponentsData::default();
        let mut i: usize = 0;
        while i < separated.groups.len()
            invariant_except_break
                i <= separated.groups@.len(),
                main_components_from(separated.groups@, i as int) == main_components_from(separated.groups@, 0),
                main@ == no_components(),
            ensures
                main@ == main_components_from(separated.groups@, 0),
            decreases separated.groups.len() - i,
        {
            if separated.groups[i].source.is_none() {
                main = separated.groups[i].components.clone();
                break;
            }
            i = i + 1;
        }
        let layout = match &self.layout {
            Some(l) => Some(l.clone()),
            None => None,
        };
        let mut data = SettingsData {
            timeout: self.timeout,
            feedback: self.feedback,
            editor: self.editor.clone(),
            color_schemes: Vec::new(),
            text_styles: Vec::new(),
            boards: Vec::new(),
            padsets: Vec::new(),
            layout,
            natural_key_order: self.natural_key_order,
            includes: separated.included_files(),
            source_mappings: Vec::new(),
        };
        let ghost mv = main@;
        data.set_all(main);
        assert(schemes_view(data.color_schemes@) == mv.color_schemes);
        data
    }
}

} // verus!
