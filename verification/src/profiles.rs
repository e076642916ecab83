//! Profiles of the earlier settings format: a keyword or an id that picks the
//! profile for an application, and its pads of actions.
use vstd::prelude::*;
use crate::text::{contains_chars, contains_seq, lowercase_of, owned, str_eq, string_chars, to_lowercase};

verus! {

/// An action of a profile's pad.
#[derive(Debug)]
pub enum Action {
    Shortcut(String),
    Text(String),
    Line(String),
    Pause(u16),
    Board(String),
}

/// What an action stands for.
pub enum ActionV {
    Shortcut(Seq<char>),
    Text(Seq<char>),
    Line(Seq<char>),
    Pause(u16),
    Board(Seq<char>),
}

impl View for Action {
    type V = ActionV;

    open spec fn view(&self) -> ActionV {
        match self {
            Action::Shortcut(s) => ActionV::Shortcut(s@),
            Action::Text(s) => ActionV::Text(s@),
            Action::Line(s) => ActionV::Line(s@),
            Action::Pause(n) => ActionV::Pause(*n),
            Action::Board(s) => ActionV::Board(s@),
        }
    }
}

impl Clone for Action {
    fn clone(&self) -> (r: Self)
        ensures
            r@ == self@,
    {
        match self {
            Action::Shortcut(s) => Action::Shortcut(s.clone()),
            Action::Text(s) => Action::Text(s.clone()),
            Action::Line(s) => Action::Line(s.clone()),
            Action::Pause(n) => Action::Pause(*n),
            Action::Board(s) => Action::Board(s.clone()),
        }
    }
}

/// The views of a list of actions.
pub open spec fn profile_actions_view(v: Seq<Action>) -> Seq<ActionV> {
    v.map_values(|a: Action| a@)
}

/// A pad of a profile: its title, description and actions.
#[derive(Debug)]
pub struct Pad {
    pub title: String,
    pub description: String,
    pub actions: Vec<Action>,
}

/// What a profile's pad stands for.
pub struct PadV {
    pub title: Seq<char>,
    pub description: Seq<char>,
    pub actions: Seq<ActionV>,
}

impl View for Pad {
    type V = PadV;

    open spec fn view(&self) -> PadV {
        PadV { title: self.title@, description: self.description@, actions: profile_actions_view(self.actions@) }
    }
}

impl Clone for Pad {
    fn clone(&self) -> (r: Self)
        ensures
            r@ == self@,
    {
        let mut actions: Vec<Action> = Vec::new();
        let mut i: usize = 0;
        while i < self.actions.len()
            invariant
                i <= self.actions@.len(),
                actions@.len() == i,
                forall|k: int| 0 <= k < i ==> (#[trigger] actions@[k])@ == self.actions@[k]@,
            decreases self.actions.len() - i,
        {
            actions.push(self.actions[i].clone());
            i = i + 1;
        }
        assert(profile_actions_view(actions@) =~= profile_actions_view(self.actions@));
        Pad { title: self.title.clone(), description: self.description.clone(), actions }
    }
}

impl Pad {
    /// A pad with the given title, description and actions.
    pub fn new(title: &str, description: &str, actions: Vec<Action>) -> (r: Self)
        ensures
            r@ == (PadV { title: title@, description: description@, actions: profile_actions_view(actions@) }),
    {
        Self { title: owned(title), description: owned(description), actions }
    }

    /// The pad with an empty title and description and no actions.
    pub fn default() -> (r: Self)
        ensures
            r@ == (PadV { title: Seq::empty(), description: Seq::empty(), actions: Seq::empty() }),
    {
        let r = Self { title: String::new(), description: String::new(), actions: Vec::new() };
        assert(profile_actions_view(r.actions@) =~= Seq::<ActionV>::empty());
        r
    }
}

/// How a profile is picked for an application.
#[derive(Debug, Clone)]
pub enum ProfileMatch {
    /// The application's name, in lower case, is the keyword.
    NameEquals(String),
    /// The application's name, in lower case, contains the keyword.
    NameContains(String),
    /// The profile has this id.
    IdEquals(isize),
}

/// A profile: its name, the keyword that picks it, its color scheme, its pads and
/// its id.
#[derive(Debug)]
pub struct Profile {
    pub name: String,
    pub keyword: String,
    pub color_scheme: String,
    pub pads: Vec<Pad>,
    pub id: isize,
}

/// The views of a list of pads.
pub open spec fn profile_pads_view(v: Seq<Pad>) -> Seq<PadV> {
    v.map_values(|p: Pad| p@)
}

impl Profile {
    /// A profile with the given name, keyword, color scheme, pads and id.
    pub fn new(name: &str, keyword: &str, color_scheme: &str, shortcuts: Vec<Pad>, id: isize) -> (r: Self)
        ensures
            r.name@ == name@,
            r.keyword@ == keyword@,
            r.color_scheme@ == color_scheme@,
            r.pads@ == shortcuts@,
            r.id == id,
    {
        Self {
            name: owned(name),
            keyword: owned(keyword),
            color_scheme: owned(color_scheme),
            pads: shortcuts,
            id,
        }
    }

    /// Whether the profile is the one picked, case left aside: by the name being or
    /// containing the keyword (both in lower case), or by the id.
    pub fn is_match(&self, matcher: &ProfileMatch) -> (r: bool)
        ensures
            r == match matcher {
                ProfileMatch::NameEquals(text) => lowercase_of(text@) == lowercase_of(self.keyword@),
                ProfileMatch::NameContains(text) => contains_seq(lowercase_of(text@), lowercase_of(self.keyword@)),
                ProfileMatch::IdEquals(id) => *id == self.id,
            },
    {
        match matcher {
            ProfileMatch::NameEquals(text) => {
                let low = to_lowercase(text.as_str());
                let key = to_lowercase(self.keyword.as_str());
                str_eq(low.as_str(), key.as_str())
            },
            ProfileMatch::NameContains(text) => {
                let low = to_lowercase(text.as_str());
                let key = to_lowercase(self.keyword.as_str());
                contains_chars(&string_chars(&low), &string_chars(&key))
            },
            ProfileMatch::IdEquals(id) => *id == self.id,
        }
    }

    /// The pad at `index`, or an empty pad past the last one.
    pub fn get_or_default(&self, index: usize) -> (r: Pad)
        ensures
            r@ == if index < self.pads@.len() {
                self.pads@[index as int]@
            } else {
                PadV { title: Seq::empty(), description: Seq::empty(), actions: Seq::empty() }
            },
    {
        if index >= self.pads.len() {
            Pad::default()
        } else {
            self.pads[index].clone()
        }
    }
}

} // verus!
