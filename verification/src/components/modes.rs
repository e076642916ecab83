//! The editing modes of the color scheme editor and how the up and down keys walk
//! through them, wrapping around at both ends.
use vstd::prelude::*;

verus! {

/// What the color scheme editor changes: a color, the opacity, or one of the
/// first three palette entries.
#[derive(Debug, Clone, Copy, PartialEq, Eq, Structural)]
pub enum EditMode {
    Background,
    Opacity,
    Lines,
    Text,
    Tag,
    Palette(i32),
}

/// The modes in the order the editor walks through them.
pub open spec fn all_modes() -> Seq<EditMode> {
    seq![
        EditMode::Background,
        EditMode::Opacity,
        EditMode::Lines,
        EditMode::Text,
        EditMode::Tag,
        EditMode::Palette(0),
        EditMode::Palette(1),
        EditMode::Palette(2),
    ]
}

/// A mode of the walk: any mode but a palette entry beyond the first three.
pub open spec fn is_walked(m: EditMode) -> bool {
    match m {
        EditMode::Palette(i) => 0 <= i <= 2,
        _ => true,
    }
}

/// The position of a mode in the walk.
pub open spec fn mode_index(m: EditMode) -> int {
    match m {
        EditMode::Background => 0,
        EditMode::Opacity => 1,
        EditMode::Lines => 2,
        EditMode::Text => 3,
        EditMode::Tag => 4,
        EditMode::Palette(i) => 5 + i,
    }
}

/// The mode after `m`, the first one after the last.
pub open spec fn next_mode(m: EditMode) -> EditMode {
    all_modes()[(mode_index(m) + 1) % 8]
}

/// The mode before `m`, the last one before the first.
pub open spec fn previous_mode(m: EditMode) -> EditMode {
    if mode_index(m) == 0 {
        all_modes()[7]
    } else {
        all_modes()[mode_index(m) - 1]
    }
}

impl EditMode {
    /// The modes in the order the editor walks through them.
    pub fn all() -> (r: Vec<EditMode>)
        ensures
            r@ == all_modes(),
    {
        let r = vec![
            EditMode::Background,
            EditMode::Opacity,
            EditMode::Lines,
            EditMode::Text,
            EditMode::Tag,
            EditMode::Palette(0),
            EditMode::Palette(1),
            EditMode::Palette(2),
        ];
        assert(r@ =~= all_modes());
        r
    }

    /// The position of the mode in the walk.
    pub fn index(&self) -> (r: usize)
        requires
            is_walked(*self),
        ensures
            r == mode_index(*self),
            all_modes()[r as int] == *self,
    {
        match self {
            EditMode::Background => 0,
            EditMode::Opacity => 1,
            EditMode::Lines => 2,
            EditMode::Text => 3,
            EditMode::Tag => 4,
            EditMode::Palette(i) => (5 + *i) as usize,
        }
    }

    /// The next mode; after the last comes the first.
    pub fn next(&self) -> (r: EditMode)
        requires
            is_walked(*self),
        ensures
            r == next_mode(*self),
    {
        let all = EditMode::all();
        let idx = self.index();
        all[(idx + 1) % all.len()]
    }

    /// The previous mode; before the first comes the last.
    pub fn previous(&self) -> (r: EditMode)
        requires
            is_walked(*self),
        ensures
            r == previous_mode(*self),
    {
        let all = EditMode::all();
        let idx = self.index();
        if idx == 0 {
            all[all.len() - 1]
        } else {
            all[idx - 1]
        }
    }
}

/// Every mode of the walk is at its own position, and the walk holds only such
/// modes.
pub proof fn law_walk_positions(m: EditMode)
    requires
        is_walked(m),
    ensures
        0 <= mode_index(m) < 8,
        all_modes()[mode_index(m)] == m,
        is_walked(next_mode(m)),
        is_walked(previous_mode(m)),
{
}

/// Going to the next mode and back, or back and then on, gives the mode again.
pub proof fn law_next_previous_inverse(m: EditMode)
    requires
        is_walked(m),
    ensures
        previous_mode(next_mode(m)) == m,
        next_mode(previous_mode(m)) == m,
{
}

} // verus!
