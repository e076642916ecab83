//! Modifier key state.
use vstd::prelude::*;
use crate::text::{join, join_strings, owned};

pub mod vkey;

verus! {

/// Which modifier keys are held down.
#[derive(Debug, Clone, Copy, PartialEq, Eq, Structural)]
pub struct ModifierState {
    pub ctrl: bool,
    pub shift: bool,
    pub alt: bool,
    pub super_key: bool,
}

impl Default for ModifierState {
    fn default() -> (r: Self)
        ensures
            r == ModifierState::none(),
    {
        ModifierState { ctrl: false, shift: false, alt: false, super_key: false }
    }
}

/// The display names of the held modifiers, in the order Ctrl, Shift, Alt, Super.
pub open spec fn modifier_names(m: ModifierState) -> Seq<Seq<char>> {
    (if m.ctrl { seq!["Ctrl"@] } else { Seq::empty() }) + (if m.shift {
        seq!["Shift"@]
    } else {
        Seq::empty()
    }) + (if m.alt { seq!["Alt"@] } else { Seq::empty() }) + (if m.super_key {
        seq!["Super"@]
    } else {
        Seq::empty()
    })
}

impl ModifierState {
    /// The state with no modifier held.
    pub open spec fn none() -> ModifierState {
        ModifierState { ctrl: false, shift: false, alt: false, super_key: false }
    }

    /// No modifier is held.
    pub fn is_none(&self) -> (r: bool)
        ensures
            r == (*self == ModifierState::none()),
    {
        !self.ctrl && !self.shift && !self.alt && !self.super_key
    }

    /// At least one modifier is held.
    pub fn is_any(&self) -> (r: bool)
        ensures
            r == (self.ctrl || self.shift || self.alt || self.super_key),
    {
        self.ctrl || self.shift || self.alt || self.super_key
    }

    /// The names of the held modifiers: "Ctrl", "Shift", "Alt", "Super", in this order.
    pub fn display_state(&self) -> (r: Vec<&'static str>)
        ensures
            r@.len() == modifier_names(*self).len(),
            forall|i: int| 0 <= i < r@.len() ==> #[trigger] r@[i]@ == modifier_names(*self)[i],
    {
        let mut parts: Vec<&'static str> = Vec::new();
        if self.ctrl {
            parts.push("Ctrl");
        }
        if self.shift {
            parts.push("Shift");
        }
        if self.alt {
            parts.push("Alt");
        }
        if self.super_key {
            parts.push("Super");
        }
        parts
    }

    /// The held modifiers' names joined with "+", e.g. "Ctrl+Shift"; empty when none
    /// is held.
    pub fn to_string(&self) -> (r: String)
        ensures
            r@ == join(modifier_names(*self), "+"@),
    {
        let mut parts: Vec<String> = Vec::new();
        if self.ctrl {
            parts.push(owned("Ctrl"));
        }
        if self.shift {
            parts.push(owned("Shift"));
        }
        if self.alt {
            parts.push(owned("Alt"));
        }
        if self.super_key {
            parts.push(owned("Super"));
        }
        assert(parts@.map_values(|p: String| p@) =~= modifier_names(*self));
        join_strings(&parts, "+")
    }
}

} // verus!
