//! The guided tour of the home board: its steps, and which key or click moves it
//! on.
use vstd::prelude::*;
use crate::components::controls::vk_of;
use crate::components::events::{MouseEventTarget, UiEvent, UiEventResult};
use crate::input::keys::vkey::{VK_2, VK_C, VK_DARROW, VK_ENTER, VK_NUMPAD1, VK_R, VK_RARROW};
use crate::domain::integration::opt_view;
use crate::model::data::PadId;
use crate::text::{char_from_ascii, chars_of, owned, string_from_chars};

verus! {

/// The `N` key.
pub const VK_N: u16 = 0x4E;

/// The last step of the tour.
pub const TOUR_LAST_STEP: u32 = 7;

/// The key that moves the tour on from a step, if that step waits for a key:
/// keypad 1, then 2, then (after a click) right, down, `c` and `n`.
pub open spec fn step_key(step: u32) -> Option<u16> {
    if step == 0 {
        Some(VK_NUMPAD1)
    } else if step == 1 {
        Some(VK_2)
    } else if step == 3 {
        Some(VK_RARROW)
    } else if step == 4 {
        Some(VK_DARROW)
    } else if step == 5 {
        Some(VK_C)
    } else if step == 6 {
        Some(VK_N)
    } else {
        None
    }
}

/// The step after this one; the last step stays.
pub open spec fn step_after(step: u32) -> u32 {
    if step < TOUR_LAST_STEP {
        (step + 1) as u32
    } else {
        step
    }
}

/// The step of the tour.
pub struct TourState {
    step: u32,
}

impl TourState {
    /// The current step.
    pub closed spec fn step_spec(&self) -> u32 {
        self.step
    }

    /// A tour at its first step.
    pub fn new() -> (r: Self)
        ensures
            r.step_spec() == 0,
    {
        Self { step: 0 }
    }

    /// The current step.
    pub fn step(&self) -> (r: u32)
        ensures
            r == self.step_spec(),
    {
        self.step
    }

    /// The last step of the tour.
    pub fn max_step(&self) -> (r: u32)
        ensures
            r == TOUR_LAST_STEP,
    {
        TOUR_LAST_STEP
    }

    fn step_forward(&mut self)
        ensures
            final(self).step_spec() == step_after(old(self).step_spec()),
    {
        if self.step < TOUR_LAST_STEP {
            self.step = self.step + 1;
        }
    }

    /// Handles an event: the key a step waits for, or a click on pad 3 at the
    /// step that waits for a click, moves the tour on; `r` restarts it; enter is
    /// taken and does nothing.
    pub fn handle_ui_event(&mut self, event: UiEvent) -> (r: UiEventResult)
        ensures
            match event {
                UiEvent::KeyDown(ke) => {
                    let vk = vk_of(ke.key);
                    if step_key(old(self).step_spec()) == Some(vk) {
                        r == UiEventResult::RequiresRedraw && final(self).step_spec() == step_after(
                            old(self).step_spec(),
                        )
                    } else if vk == VK_R {
                        r == UiEventResult::RequiresRedraw && final(self).step_spec() == 0
                    } else if vk == VK_ENTER {
                        r == UiEventResult::Handled && final(self).step_spec() == old(self).step_spec()
                    } else {
                        r == UiEventResult::NotHandled && final(self).step_spec() == old(self).step_spec()
                    }
                },
                UiEvent::RightMouseDown(me) => if old(self).step_spec() == 2 && me.target
                    == MouseEventTarget::Pad(PadId::Three) {
                    r == UiEventResult::RequiresRedraw && final(self).step_spec() == step_after(
                        old(self).step_spec(),
                    )
                } else {
                    r == UiEventResult::NotHandled && final(self).step_spec() == old(self).step_spec()
                },
                UiEvent::KeyUp(_) => r == UiEventResult::NotHandled && final(self).step_spec() == old(
                    self,
                ).step_spec(),
            },
    {
        let step = self.step;
        match event {
            UiEvent::KeyDown(ke) => {
                let vk = crate::components::controls::vk_code(ke.key);
                if (step == 0 && vk == VK_NUMPAD1) || (step == 1 && vk == VK_2) || (step == 3 && vk == VK_RARROW)
                    || (step == 4 && vk == VK_DARROW) || (step == 5 && vk == VK_C) || (step == 6 && vk == VK_N) {
                    self.step_forward();
                    UiEventResult::RequiresRedraw
                } else if vk == VK_R {
                    self.step = 0;
                    UiEventResult::RequiresRedraw
                } else if vk == VK_ENTER {
                    UiEventResult::Handled
                } else {
                    UiEventResult::NotHandled
                }
            },
            UiEvent::RightMouseDown(me) => {
                if step == 2 && me.target == MouseEventTarget::Pad(PadId::Three) {
                    self.step_forward();
                    UiEventResult::RequiresRedraw
                } else {
                    UiEventResult::NotHandled
                }
            },
            UiEvent::KeyUp(_) => UiEventResult::NotHandled,
        }
    }
}

impl TourState {
    /// The pads the tour shows at its step, `ctrl` telling whether the Ctrl key is
    /// held.
    pub fn padset(&self, ctrl: bool) -> (r: Vec<TourPad>)
        ensures
            tour_pads_view(r@) == tour_pads_spec(self.step_spec(), ctrl),
    {
        let step = self.step;
        let mut pads: Vec<TourPad> = Vec::new();
        if step == 0 {
            pads.push(make_pad(PadId::One, None, Some("Press '1' on\nnumeric keypad"), false, no_tags()));
        } else {
            pads.push(
                make_pad(PadId::One, Some("\n\nPad selection:"), Some("using numeric keypad"), true, no_tags()),
            );
        }
        let ghost a = tour_pads_view(pads@);
        assert(a =~= seq![tour_pad_one(step)]);
        if step >= 1 {
            if step == 1 {
                pads.push(make_pad(PadId::Two, None, Some("Press '2' on\nregular keyboard"), false, no_tags()));
            } else {
                pads.push(make_pad(PadId::Two, None, Some("or using regular keyboard"), true, no_tags()));
            }
        }
        let ghost b = tour_pads_view(pads@);
        assert(b =~= a + when(step >= 1, seq![tour_pad_two(step)]));
        if step >= 2 {
            if step == 2 {
                pads.push(make_pad(PadId::Three, None, Some("Click here"), false, no_tags()));
            } else {
                pads.push(make_pad(PadId::Three, None, Some("or with a mouse click."), true, no_tags()));
            }
        }
        let ghost c = tour_pads_view(pads@);
        assert(c =~= b + when(step >= 2, seq![tour_pad_three(step)]));
        if step >= 3 {
            let mut tags: Vec<TourTag> = Vec::new();
            tags.push(make_tag("Use arrows to navigate", TagAnchor::NE, Some(0), step > 3));
            tags.push(make_tag(if step == 3 { "" } else { "▽" }, TagAnchor::S, Some(2), step > 4));
            tags.push(
                make_tag(if step <= 4 { "" } else { "as indicated by triangles." }, TagAnchor::CS, Some(0), true),
            );
            assert(tour_tags_view(tags@) =~= tour_nine_tags(step));
            pads.push(make_pad(PadId::Nine, None, None, false, tags));
        }
        let ghost d = tour_pads_view(pads@);
        assert(d =~= c + when(step >= 3, seq![pad_v(PadId::Nine, None, None, false, tour_nine_tags(step))]));
        if step >= 5 {
            let mut tags: Vec<TourTag> = Vec::new();
            tags.push(
                make_tag("Available commands are\ndisplayed in header area", TagAnchor::NW, Some(0), true),
            );
            tags.push(make_tag(if step >= 6 { "or contextually\n" } else { "" }, TagAnchor::SW, Some(0), true));
            tags.push(make_tag(if step >= 6 { "n: next step" } else { "" }, TagAnchor::SW, Some(0), step > 6));
            assert(tour_tags_view(tags@) =~= tour_seven_tags(step));
            pads.push(make_pad(PadId::Seven, None, None, false, tags));
        }
        let ghost e = tour_pads_view(pads@);
        assert(e =~= d + when(step >= 5, seq![pad_v(PadId::Seven, None, None, false, tour_seven_tags(step))]));
        if step >= 7 {
            let mut tags: Vec<TourTag> = Vec::new();
            tags.push(
                make_tag("Hint: Press 'Ctrl' anywhere\nto show available commands.", TagAnchor::SW, Some(0), ctrl),
            );
            assert(tour_tags_view(tags@) =~= tour_five_tags(ctrl));
            pads.push(make_pad(PadId::Five, None, Some("Congratulations!"), false, tags));
        }
        assert(tour_pads_view(pads@) =~= e + when(
            step >= 7,
            seq![pad_v(PadId::Five, None, Some("Congratulations!"@), false, tour_five_tags(ctrl))],
        ));
        proof {
            let s = tour_pads_spec(step, ctrl);
            assert(tour_pads_view(pads@) =~= s);
        }
        pads
    }

    /// The tags of the tour's board at its step, `ctrl` telling whether the Ctrl
    /// key is held.
    pub fn tags(&self, ctrl: bool) -> (r: Vec<TourTag>)
        ensures
            tour_tags_view(r@) == tour_tags_spec(self.step_spec(), ctrl),
    {
        let step = self.step;
        let mut tags: Vec<TourTag> = Vec::new();
        if step >= 3 {
            tags.push(make_tag("▷", TagAnchor::SE, Some(2), step > 3));
        }
        let ghost a = tour_tags_view(tags@);
        assert(a =~= when(step >= 3, seq![tag_v("▷"@, TagAnchor::SE, Some(2u8), step > 3)]));
        if step >= 5 {
            tags.push(make_tag("c: command", TagAnchor::SW, Some(0), step > 5));
        }
        let ghost b = tour_tags_view(tags@);
        assert(b =~= a + when(step >= 5, seq![tag_v("c: command"@, TagAnchor::SW, Some(0u8), step > 5)]));
        if step < 7 {
            let digit = char_from_ascii(step + 1 + 48);
            let mut counter: Vec<char> = chars_of("Step ");
            counter.push(digit);
            let rest = chars_of("/8");
            let mut i: usize = 0;
            let ghost head = counter@;
            while i < rest.len()
                invariant
                    i <= rest@.len(),
                    counter@ == head + rest@.take(i as int),
                decreases rest.len() - i,
            {
                counter.push(rest[i]);
                i = i + 1;
                assert(counter@ =~= head + rest@.take(i as int));
            }
            assert(rest@.take(rest@.len() as int) =~= rest@);
            let text = string_from_chars(&counter);
            assert(text@ =~= "Step "@ + seq![((step + 1 + 48) as u32) as char] + "/8"@);
            tags.push(TourTag { text, anchor: TagAnchor::NW, font_idx: None, dimmed: false });
        } else if ctrl {
            tags.push(make_tag("esc", TagAnchor::NW, Some(0), false));
            tags.push(make_tag("r: restart", TagAnchor::NE, Some(0), false));
        }
        proof {
            assert(tour_tags_view(tags@) =~= tour_tags_spec(step, ctrl));
        }
        tags
    }
}

/// Going through the steps in order takes the tour from its first to its last
/// step, and the last step stays.
pub proof fn law_tour_reaches_the_end()
    ensures
        step_after(step_after(step_after(step_after(step_after(step_after(step_after(0u32)))))))
            == TOUR_LAST_STEP,
        step_after(TOUR_LAST_STEP) == TOUR_LAST_STEP,
        forall|s: u32| s <= TOUR_LAST_STEP ==> step_after(s) <= TOUR_LAST_STEP,
{
}


/// Where a tag of the tour is pinned in its pad or board.
#[derive(Debug, Clone, Copy, PartialEq, Eq, Structural)]
pub enum TagAnchor {
    NW,
    NE,
    CS,
    SW,
    S,
    SE,
}

/// A text pinned in a pad or in the board's header: its text, where it is pinned,
/// which font of the text style it uses (the header font when none), and whether
/// it is drawn dimmed.
#[derive(Debug)]
pub struct TourTag {
    pub text: String,
    pub anchor: TagAnchor,
    pub font_idx: Option<u8>,
    pub dimmed: bool,
}

/// What a tag stands for.
pub struct TourTagV {
    pub text: Seq<char>,
    pub anchor: TagAnchor,
    pub font_idx: Option<u8>,
    pub dimmed: bool,
}

impl View for TourTag {
    type V = TourTagV;

    open spec fn view(&self) -> TourTagV {
        TourTagV { text: self.text@, anchor: self.anchor, font_idx: self.font_idx, dimmed: self.dimmed }
    }
}

/// A pad of the tour: its place, header and text, whether it is drawn dimmed, and
/// its tags.
#[derive(Debug)]
pub struct TourPad {
    pub pad_id: PadId,
    pub header: Option<String>,
    pub text: Option<String>,
    pub dimmed: bool,
    pub tags: Vec<TourTag>,
}

/// What a pad of the tour stands for.
pub struct TourPadV {
    pub pad_id: PadId,
    pub header: Option<Seq<char>>,
    pub text: Option<Seq<char>>,
    pub dimmed: bool,
    pub tags: Seq<TourTagV>,
}

/// The views of a list of tags.
pub open spec fn tour_tags_view(v: Seq<TourTag>) -> Seq<TourTagV> {
    v.map_values(|t: TourTag| t@)
}

impl View for TourPad {
    type V = TourPadV;

    open spec fn view(&self) -> TourPadV {
        TourPadV {
            pad_id: self.pad_id,
            header: opt_view(self.header),
            text: opt_view(self.text),
            dimmed: self.dimmed,
            tags: tour_tags_view(self.tags@),
        }
    }
}

/// The views of a list of pads of the tour.
pub open spec fn tour_pads_view(v: Seq<TourPad>) -> Seq<TourPadV> {
    v.map_values(|p: TourPad| p@)
}

/// A tag.
pub open spec fn tag_v(text: Seq<char>, anchor: TagAnchor, font_idx: Option<u8>, dimmed: bool) -> TourTagV {
    TourTagV { text, anchor, font_idx, dimmed }
}

/// A pad of the tour.
pub open spec fn pad_v(
    pad_id: PadId,
    header: Option<Seq<char>>,
    text: Option<Seq<char>>,
    dimmed: bool,
    tags: Seq<TourTagV>,
) -> TourPadV {
    TourPadV { pad_id, header, text, dimmed, tags }
}

/// `s` when `b` holds, else nothing.
pub open spec fn when<T>(b: bool, s: Seq<T>) -> Seq<T> {
    if b {
        s
    } else {
        Seq::empty()
    }
}

/// The first pad of the tour: what to press on the keypad, dimmed once done.
pub open spec fn tour_pad_one(step: u32) -> TourPadV {
    if step == 0 {
        pad_v(PadId::One, None, Some("Press '1' on\nnumeric keypad"@), false, Seq::empty())
    } else {
        pad_v(PadId::One, Some("\n\nPad selection:"@), Some("using numeric keypad"@), true, Seq::empty())
    }
}

/// The second pad of the tour: what to press on the keyboard, dimmed once done.
pub open spec fn tour_pad_two(step: u32) -> TourPadV {
    if step == 1 {
        pad_v(PadId::Two, None, Some("Press '2' on\nregular keyboard"@), false, Seq::empty())
    } else {
        pad_v(PadId::Two, None, Some("or using regular keyboard"@), true, Seq::empty())
    }
}

/// The third pad of the tour: where to click, dimmed once done.
pub open spec fn tour_pad_three(step: u32) -> TourPadV {
    if step == 2 {
        pad_v(PadId::Three, None, Some("Click here"@), false, Seq::empty())
    } else {
        pad_v(PadId::Three, None, Some("or with a mouse click."@), true, Seq::empty())
    }
}

/// The tags of the ninth pad of the tour: the arrows.
pub open spec fn tour_nine_tags(step: u32) -> Seq<TourTagV> {
    seq![
        tag_v("Use arrows to navigate"@, TagAnchor::NE, Some(0u8), step > 3),
        tag_v(if step == 3 { ""@ } else { "▽"@ }, TagAnchor::S, Some(2u8), step > 4),
        tag_v(if step <= 4 { ""@ } else { "as indicated by triangles."@ }, TagAnchor::CS, Some(0u8), true),
    ]
}

/// The tags of the seventh pad of the tour: the commands.
pub open spec fn tour_seven_tags(step: u32) -> Seq<TourTagV> {
    seq![
        tag_v("Available commands are\ndisplayed in header area"@, TagAnchor::NW, Some(0u8), true),
        tag_v(if step >= 6 { "or contextually\n"@ } else { ""@ }, TagAnchor::SW, Some(0u8), true),
        tag_v(if step >= 6 { "n: next step"@ } else { ""@ }, TagAnchor::SW, Some(0u8), step > 6),
    ]
}

/// The tags of the fifth pad of the tour: the hint, dimmed while Ctrl is held.
pub open spec fn tour_five_tags(ctrl: bool) -> Seq<TourTagV> {
    seq![tag_v("Hint: Press 'Ctrl' anywhere\nto show available commands."@, TagAnchor::SW, Some(0u8), ctrl)]
}

/// The pads that the tour shows at a step, `ctrl` telling whether the Ctrl key is
/// held: each step adds pads, and the pads of the steps done are dimmed.
pub open spec fn tour_pads_spec(step: u32, ctrl: bool) -> Seq<TourPadV> {
    seq![tour_pad_one(step)] + when(step >= 1, seq![tour_pad_two(step)]) + when(
        step >= 2,
        seq![tour_pad_three(step)],
    ) + when(step >= 3, seq![pad_v(PadId::Nine, None, None, false, tour_nine_tags(step))]) + when(
        step >= 5,
        seq![pad_v(PadId::Seven, None, None, false, tour_seven_tags(step))],
    ) + when(step >= 7, seq![pad_v(PadId::Five, None, Some("Congratulations!"@), false, tour_five_tags(ctrl))])
}

/// The tags of the tour's board at a step, `ctrl` telling whether the Ctrl key is
/// held: the arrow and command hints once shown, and the step counter, or at the
/// end with Ctrl held the keys to leave and to restart.
pub open spec fn tour_tags_spec(step: u32, ctrl: bool) -> Seq<TourTagV> {
    when(step >= 3, seq![tag_v("▷"@, TagAnchor::SE, Some(2u8), step > 3)]) + when(
        step >= 5,
        seq![tag_v("c: command"@, TagAnchor::SW, Some(0u8), step > 5)],
    ) + if step < 7 {
        seq![tag_v("Step "@ + seq![((step + 1 + 48) as u32) as char] + "/8"@, TagAnchor::NW, None, false)]
    } else if ctrl {
        seq![
            tag_v("esc"@, TagAnchor::NW, Some(0u8), false),
            tag_v("r: restart"@, TagAnchor::NE, Some(0u8), false),
        ]
    } else {
        Seq::empty()
    }
}

fn no_tags() -> (r: Vec<TourTag>)
    ensures
        tour_tags_view(r@) == Seq::<TourTagV>::empty(),
{
    let r: Vec<TourTag> = Vec::new();
    assert(tour_tags_view(r@) =~= Seq::<TourTagV>::empty());
    r
}

fn make_tag(text: &str, anchor: TagAnchor, font_idx: Option<u8>, dimmed: bool) -> (r: TourTag)
    ensures
        r@ == tag_v(text@, anchor, font_idx, dimmed),
{
    TourTag { text: owned(text), anchor, font_idx, dimmed }
}

fn make_pad(
    pad_id: PadId,
    header: Option<&str>,
    text: Option<&str>,
    dimmed: bool,
    tags: Vec<TourTag>,
) -> (r: TourPad)
    ensures
        r@ == pad_v(
            pad_id,
            match header {
                Some(h) => Some(h@),
                None => None,
            },
            match text {
                Some(t) => Some(t@),
                None => None,
            },
            dimmed,
            tour_tags_view(tags@),
        ),
{
    let header = match header {
        Some(h) => Some(owned(h)),
        None => None,
    };
    let text = match text {
        Some(t) => Some(owned(t)),
        None => None,
    };
    TourPad { pad_id, header, text, dimmed, tags }
}

} // verus!
