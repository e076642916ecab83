//! What the home board, the board that offers to create a process's board, the
//! main board and a chain of boards do with the events they get.
use vstd::prelude::*;
use crate::components::controls::{vk_code, vk_of};
use crate::components::events::{MouseEventTarget, UiEvent, UiEventResult};
use crate::components::keypad::{map_pad_id, pad_number_of_key};
use crate::components::tour::VK_N;
use crate::input::keys::ModifierState;
use crate::input::keys::vkey::{
    VK_C, VK_D, VK_E, VK_ENTER, VK_ESC, VK_F, VK_F2, VK_LARROW, VK_NUMPAD1, VK_NUMPAD9, VK_RARROW, VK_S, VK_T, VK_W,
    VK_X,
};
use crate::model::data::{parse_i32, parse_i32_spec};
use crate::model::data::PadId;
use crate::settings::settings::Settings;
use crate::model::handle::{board_named, detectable_board, CreateDetectableBoardUseCase};
use crate::settings::validation::padset_names;
use crate::text::{decimal, join, owned, push_decimal, string_chars, string_from_chars, str_eq};
use crate::domain::data::strs_view;
use crate::domain::integration::{
    find_param, find_param_in, opt_view, param_view, params_view, merge_spec, path_spec, sub_path_spec,
    Param, Params, PathString,
};
use crate::settings::settings::{find_name, lemma_name_position, lemma_position_distinct, name_position};
use crate::settings::validation::all_distinct;
use vstd::arithmetic::div_mod::{lemma_add_mod_noop, lemma_mod_bound, lemma_mod_self_0, lemma_small_mod};

verus! {

/// The `Y` key.
pub const VK_Y: u16 = 0x59;

/// What the home board does with an event.
#[derive(Debug, Clone, Copy, PartialEq, Eq, Structural)]
pub enum HomeAction {
    /// Select a pad (settings on pad 4, detection on pad 6).
    Select(PadId),
    /// Start the guided tour.
    StartTour,
    NotHandled,
}

/// The pad, as a number from 1 to 9, that a key selects on the keypad (0 for none).
pub open spec fn key_pad(vk: u16, natural_key_order: bool) -> int {
    pad_number_of_key(vk, natural_key_order)
}

/// The home board's answer to a key: pad 4 or `s` selects pad 4, pad 5 or `t`
/// starts the tour, pad 6 or `d` selects pad 6, in that order of precedence.
pub open spec fn home_key_action(vk: u16, natural_key_order: bool) -> HomeAction {
    let p = key_pad(vk, natural_key_order);
    if p == 4 || vk == VK_S {
        HomeAction::Select(PadId::Four)
    } else if p == 5 || vk == VK_T {
        HomeAction::StartTour
    } else if p == 6 || vk == VK_D {
        HomeAction::Select(PadId::Six)
    } else {
        HomeAction::NotHandled
    }
}

/// The home board's answer to an event: keys as above, a right click on pad 5
/// starts the tour, anything else is not handled.
pub open spec fn home_action_spec(event: UiEvent, natural_key_order: bool) -> HomeAction {
    match event {
        UiEvent::KeyDown(ke) => home_key_action(vk_of(ke.key), natural_key_order),
        UiEvent::RightMouseDown(me) => if me.target == MouseEventTarget::Pad(PadId::Five) {
            HomeAction::StartTour
        } else {
            HomeAction::NotHandled
        },
        UiEvent::KeyUp(_) => HomeAction::NotHandled,
    }
}

/// What the home board does with an event, the keys mapped to pads in the
/// keypad's own order or in the natural reading order.
pub fn home_action(event: UiEvent, natural_key_order: bool) -> (r: HomeAction)
    ensures
        r == home_action_spec(event, natural_key_order),
{
    match event {
        UiEvent::KeyDown(ke) => {
            let vk = vk_code(ke.key);
            let pad = map_pad_id(vk, natural_key_order);
            let p: u8 = match pad {
                Some(PadId::Four) => 4,
                Some(PadId::Five) => 5,
                Some(PadId::Six) => 6,
                _ => 0,
            };
            if p == 4 || vk == VK_S {
                HomeAction::Select(PadId::Four)
            } else if p == 5 || vk == VK_T {
                HomeAction::StartTour
            } else if p == 6 || vk == VK_D {
                HomeAction::Select(PadId::Six)
            } else {
                HomeAction::NotHandled
            }
        },
        UiEvent::RightMouseDown(me) => {
            if me.target == MouseEventTarget::Pad(PadId::Five) {
                HomeAction::StartTour
            } else {
                HomeAction::NotHandled
            }
        },
        UiEvent::KeyUp(_) => HomeAction::NotHandled,
    }
}

/// What the board that offers to create a process's board does with an event.
#[derive(Debug, Clone, Copy, PartialEq, Eq, Structural)]
pub enum CreatePrompt {
    /// Enter or `y`: create the board.
    Create,
    /// Escape or `n`: leave without creating it.
    Cancel,
    /// A right click, taken and ignored.
    Ignore,
    NotHandled,
}

/// The prompt's answer to an event.
pub open spec fn create_prompt_spec(event: UiEvent) -> CreatePrompt {
    match event {
        UiEvent::KeyDown(ke) => {
            let vk = vk_of(ke.key);
            if vk == VK_ENTER || vk == VK_Y {
                CreatePrompt::Create
            } else if vk == VK_ESC || vk == VK_N {
                CreatePrompt::Cancel
            } else {
                CreatePrompt::NotHandled
            }
        },
        UiEvent::RightMouseDown(_) => CreatePrompt::Ignore,
        UiEvent::KeyUp(_) => CreatePrompt::NotHandled,
    }
}

/// What the prompt does with an event.
pub fn create_prompt(event: UiEvent) -> (r: CreatePrompt)
    ensures
        r == create_prompt_spec(event),
{
    match event {
        UiEvent::KeyDown(ke) => {
            let vk = vk_code(ke.key);
            if vk == VK_ENTER || vk == VK_Y {
                CreatePrompt::Create
            } else if vk == VK_ESC || vk == VK_N {
                CreatePrompt::Cancel
            } else {
                CreatePrompt::NotHandled
            }
        },
        UiEvent::RightMouseDown(_) => CreatePrompt::Ignore,
        UiEvent::KeyUp(_) => CreatePrompt::NotHandled,
    }
}

/// Handles an event of the prompt for a process: creating the board selects pad 5
/// (where the new board lies) when it succeeds and is not handled when it fails;
/// cancelling leaves the prompt; a right click is taken.
pub fn handle_create_prompt(uc: &CreateDetectableBoardUseCase, settings: &mut Settings, event: UiEvent) -> (r:
    UiEventResult)
    ensures
        create_prompt_spec(event) == CreatePrompt::Create ==> {
            let name = crate::domain::resources::slug(uc.process_spec());
            &&& (board_named(old(settings), name) is None && !padset_names(old(settings).padsets_v()).contains(
                name,
            )) <==> r == UiEventResult::PadSelected(PadId::Five)
            &&& r != UiEventResult::PadSelected(PadId::Five) ==> r == UiEventResult::NotHandled
            &&& board_named(old(settings), name) is None ==> final(settings).boards_v() == old(
                settings,
            ).boards_v().push(detectable_board(uc.process_spec(), uc.icon_spec()))
            &&& board_named(old(settings), name) is Some ==> *final(settings) == *old(settings)
        },
        create_prompt_spec(event) == CreatePrompt::Cancel ==> r == UiEventResult::PopState && *final(settings)
            == *old(settings),
        create_prompt_spec(event) == CreatePrompt::Ignore ==> r == UiEventResult::Handled && *final(settings)
            == *old(settings),
        create_prompt_spec(event) == CreatePrompt::NotHandled ==> r == UiEventResult::NotHandled
            && *final(settings) == *old(settings),
{
    match create_prompt(event) {
        CreatePrompt::Create => match uc.create_board(settings) {
            Ok(_) => UiEventResult::PadSelected(PadId::Five),
            Err(_) => UiEventResult::NotHandled,
        },
        CreatePrompt::Cancel => UiEventResult::PopState,
        CreatePrompt::Ignore => UiEventResult::Handled,
        CreatePrompt::NotHandled => UiEventResult::NotHandled,
    }
}


/// What the main board does with an event.
#[derive(Debug, Clone, Copy, PartialEq, Eq, Structural)]
pub enum MainAction {
    /// Open the board in edit mode (`e`, or a right click on the header).
    EditBoard,
    /// Open the settings board (`s`).
    OpenSettings,
    /// Move or size the window (`x`).
    WindowLayout,
    /// Write the changed settings (`w`, when there are changes).
    SaveChanges,
    /// Answer the event with this result.
    Reply(UiEventResult),
}

/// The main board's answer to an event, and the modifiers it shows afterwards,
/// given whether the settings have unsaved changes.
pub open spec fn main_step(modifier: ModifierState, event: UiEvent, dirty: bool) -> (MainAction, ModifierState) {
    match event {
        UiEvent::KeyDown(ke) => {
            let vk = vk_of(ke.key);
            if vk == VK_E {
                (MainAction::EditBoard, ModifierState::none())
            } else if vk == VK_S {
                (MainAction::OpenSettings, ModifierState::none())
            } else if vk == VK_X {
                (MainAction::WindowLayout, ModifierState::none())
            } else if vk == VK_W && dirty {
                (MainAction::SaveChanges, ke.modifiers)
            } else {
                (MainAction::Reply(UiEventResult::NotHandled), ke.modifiers)
            }
        },
        UiEvent::KeyUp(ke) => if modifier != ke.modifiers {
            (MainAction::Reply(UiEventResult::RequiresRedraw), ke.modifiers)
        } else {
            (MainAction::Reply(UiEventResult::NotHandled), modifier)
        },
        UiEvent::RightMouseDown(me) => if me.target == MouseEventTarget::Header {
            (MainAction::EditBoard, modifier)
        } else {
            (MainAction::Reply(UiEventResult::NotHandled), modifier)
        },
    }
}

/// The main board: the modifiers held at the last key, which it shows.
pub struct MainBoardState {
    modifier: ModifierState,
}

impl MainBoardState {
    /// The modifiers the board shows.
    pub closed spec fn modifier_spec(&self) -> ModifierState {
        self.modifier
    }

    /// A main board that shows no modifiers.
    pub fn new() -> (r: Self)
        ensures
            r.modifier_spec() == ModifierState::none(),
    {
        Self { modifier: ModifierState::default() }
    }

    /// The modifiers the board shows.
    pub fn modifier(&self) -> (r: ModifierState)
        ensures
            r == self.modifier_spec(),
    {
        self.modifier
    }

    /// Handles an event, given whether the settings have unsaved changes: the
    /// keys `e`, `s` and `x` open the edit mode, the settings and the window
    /// layout and clear the modifiers shown; `w` asks to save when there are
    /// changes; other keys only record the modifiers; releasing a key redraws when
    /// the modifiers changed; a right click on the header opens the edit mode.
    pub fn handle_ui_event(&mut self, event: UiEvent, dirty: bool) -> (r: MainAction)
        ensures
            (r, final(self).modifier_spec()) == main_step(old(self).modifier_spec(), event, dirty),
    {
        match event {
            UiEvent::KeyDown(ke) => {
                self.modifier = ke.modifiers;
                let vk = vk_code(ke.key);
                if vk == VK_E {
                    self.modifier = ModifierState::default();
                    MainAction::EditBoard
                } else if vk == VK_S {
                    self.modifier = ModifierState::default();
                    MainAction::OpenSettings
                } else if vk == VK_X {
                    self.modifier = ModifierState::default();
                    MainAction::WindowLayout
                } else if vk == VK_W && dirty {
                    MainAction::SaveChanges
                } else {
                    MainAction::Reply(UiEventResult::NotHandled)
                }
            },
            UiEvent::KeyUp(ke) => {
                if self.modifier != ke.modifiers {
                    self.modifier = ke.modifiers;
                    MainAction::Reply(UiEventResult::RequiresRedraw)
                } else {
                    MainAction::Reply(UiEventResult::NotHandled)
                }
            },
            UiEvent::RightMouseDown(me) => {
                if me.target == MouseEventTarget::Header {
                    MainAction::EditBoard
                } else {
                    MainAction::Reply(UiEventResult::NotHandled)
                }
            },
        }
    }

    /// The answer to `w` once the settings were written or failed to be: a
    /// redraw when they were written.
    pub fn saved(&self, written: bool) -> (r: UiEventResult)
        ensures
            r == (if written { UiEventResult::RequiresRedraw } else { UiEventResult::NotHandled }),
    {
        if written {
            UiEventResult::RequiresRedraw
        } else {
            UiEventResult::NotHandled
        }
    }
}


/// The parameters the main board opens its edit mode with when its initial path
/// starts with `edit`: its parameters with the initial path made relative to
/// `edit`. None when there is no initial path or it starts otherwise.
pub open spec fn initial_edit_spec(ps: Seq<(Seq<char>, Seq<char>)>) -> Option<Seq<(Seq<char>, Seq<char>)>> {
    match find_param(ps, "initial_path"@) {
        Some(v) => if path_spec(v).len() > 0 && path_spec(v)[0] == "edit"@ {
            Some(
                merge_spec(
                    ps,
                    seq![("initial_path"@, join(sub_path_spec(path_spec(v), path_spec("edit"@)), "/"@))],
                ),
            )
        } else {
            None
        },
        None => None,
    }
}

/// What the main board does when it becomes active: the parameters of the edit
/// mode to open, if its initial path starts with `edit`.
pub fn initial_edit_params(params: &Vec<Param>) -> (r: Option<Vec<Param>>)
    ensures
        match r {
            Some(v) => initial_edit_spec(params_view(params@)) == Some(params_view(v@)),
            None => initial_edit_spec(params_view(params@)) is None,
        },
{
    proof {
        reveal_strlit("initial_path");
        reveal_strlit("edit");
    }
    match find_param_in(params, "initial_path") {
        Some(param) => {
            let path = param.value.path();
            if path.len() > 0 && str_eq(path[0].as_str(), "edit") {
                let sub = param.with_sub_value(owned("edit"));
                let over = vec![sub];
                assert(params_view(over@) =~= seq![param_view(sub)]);
                Some(params.merge_params(over))
            } else {
                None
            }
        },
        None => None,
    }
}

/// The board after `cur` in a chain, the first after the last; `cur` itself
/// when it is not in the chain.
pub open spec fn next_in_chain(boards: Seq<Seq<char>>, cur: Seq<char>) -> Seq<char> {
    match name_position(boards, cur) {
        Some(i) => boards[(i + 1) % (boards.len() as int)],
        None => cur,
    }
}

/// The board before `cur` in a chain, the last before the first; `cur` itself
/// when it is not in the chain.
pub open spec fn previous_in_chain(boards: Seq<Seq<char>>, cur: Seq<char>) -> Seq<char> {
    match name_position(boards, cur) {
        Some(i) => boards[if i == 0 {
            boards.len() - 1
        } else {
            i - 1
        }],
        None => cur,
    }
}

/// The board a chain starts on: the initial board when the chain holds it, the
/// first board otherwise.
pub open spec fn chain_start(boards: Seq<Seq<char>>, initial: Option<Seq<char>>) -> Seq<char> {
    match initial {
        Some(s) => if boards.contains(s) {
            s
        } else {
            boards[0]
        },
        None => boards[0],
    }
}

/// The page a chain shows: the position of the current board, counted from 1
/// (1 when it is not in the chain), a slash, and the number of boards.
pub open spec fn page_text(boards: Seq<Seq<char>>, cur: Seq<char>) -> Seq<char> {
    let k = match name_position(boards, cur) {
        Some(i) => i,
        None => 0,
    };
    decimal((k + 1) as nat) + "/"@ + decimal(boards.len())
}

/// A chain of boards that the left and right keys page through, and the main
/// board that shows the current one.
pub struct BoardChain {
    boards: Vec<String>,
    current: String,
    inner: MainBoardState,
}

impl BoardChain {
    /// The names of the boards.
    pub closed spec fn boards_spec(&self) -> Seq<Seq<char>> {
        strs_view(self.boards@)
    }

    /// The name of the current board.
    pub closed spec fn current_spec(&self) -> Seq<char> {
        self.current@
    }

    /// The main board of the current board.
    pub closed spec fn inner_spec(&self) -> MainBoardState {
        self.inner
    }

    /// Whether the chain has boards and the current board is one of them.
    pub open spec fn wf(&self) -> bool {
        self.boards_spec().len() > 0 && self.boards_spec().contains(self.current_spec())
    }

    /// A chain over `boards` (which must not be empty), on the initial board when
    /// it is one of them and on the first board otherwise.
    pub fn new(boards: Vec<String>, initial_board: Option<String>) -> (r: Self)
        requires
            boards@.len() > 0,
        ensures
            r.boards_spec() == strs_view(boards@),
            r.current_spec() == chain_start(strs_view(boards@), opt_view(initial_board)),
            r.inner_spec().modifier_spec() == ModifierState::none(),
            r.wf(),
    {
        let ghost names = strs_view(boards@);
        let ghost init = opt_view(initial_board);
        let current = match initial_board {
            Some(s) => match find_name(&boards, s.as_str()) {
                Some(_) => s,
                None => boards[0].clone(),
            },
            None => boards[0].clone(),
        };
        proof {
            lemma_name_position(names, current@);
            assert(names[0] == boards@[0]@);
            if let Some(s) = init {
                lemma_name_position(names, s);
            }
        }
        Self { boards, current, inner: MainBoardState::new() }
    }

    /// The names of the boards.
    pub fn boards(&self) -> (r: &Vec<String>)
        ensures
            strs_view(r@) == self.boards_spec(),
    {
        &self.boards
    }

    /// The name of the current board.
    pub fn current(&self) -> (r: &str)
        ensures
            r@ == self.current_spec(),
    {
        self.current.as_str()
    }

    /// The main board of the current board.
    pub fn inner(&self) -> (r: &MainBoardState)
        ensures
            *r == self.inner_spec(),
    {
        &self.inner
    }

    /// The page the chain shows, as `2/3`.
    pub fn page_string(&self) -> (r: String)
        requires
            self.boards_spec().len() < u64::MAX,
        ensures
            r@ == page_text(self.boards_spec(), self.current_spec()),
    {
        let ghost names = strs_view(self.boards@);
        let k: usize = match find_name(&self.boards, self.current.as_str()) {
            Some(i) => i,
            None => 0,
        };
        proof {
            lemma_name_position(names, self.current@);
            assert(names.len() == self.boards@.len());
        }
        assert(k < self.boards.len() || k == 0);
        let mut v: Vec<char> = Vec::new();
        push_decimal(&mut v, (k + 1) as u64);
        v.push('/');
        push_decimal(&mut v, self.boards.len() as u64);
        proof {
            reveal_strlit("/");
        }
        assert(v@ =~= page_text(names, self.current@));
        string_from_chars(&v)
    }

    /// Moves to the next board, the first after the last, with a fresh main board.
    pub fn move_next(&mut self) -> (r: UiEventResult)
        ensures
            final(self).boards_spec() == old(self).boards_spec(),
            old(self).boards_spec().contains(old(self).current_spec()) ==> r == UiEventResult::RequiresRedraw
                && final(self).current_spec() == next_in_chain(old(self).boards_spec(), old(self).current_spec())
                && final(self).inner_spec().modifier_spec() == ModifierState::none(),
            !old(self).boards_spec().contains(old(self).current_spec()) ==> r == UiEventResult::NotHandled
                && *final(self) == *old(self),
            old(self).wf() ==> final(self).wf(),
    {
        let ghost names = strs_view(self.boards@);
        proof {
            lemma_name_position(names, self.current@);
            assert(names.len() == self.boards@.len());
        }
        match find_name(&self.boards, self.current.as_str()) {
            Some(i) => {
                assert(i < self.boards.len());
                let n = (i + 1) % self.boards.len();
                self.current = self.boards[n].clone();
                self.inner = MainBoardState::new();
                assert(names[n as int] == self.boards@[n as int]@);
                UiEventResult::RequiresRedraw
            },
            None => UiEventResult::NotHandled,
        }
    }

    /// Moves to the previous board, the last before the first, with a fresh main
    /// board.
    pub fn move_previous(&mut self) -> (r: UiEventResult)
        ensures
            final(self).boards_spec() == old(self).boards_spec(),
            old(self).boards_spec().contains(old(self).current_spec()) ==> r == UiEventResult::RequiresRedraw
                && final(self).current_spec() == previous_in_chain(
                old(self).boards_spec(),
                old(self).current_spec(),
            ) && final(self).inner_spec().modifier_spec() == ModifierState::none(),
            !old(self).boards_spec().contains(old(self).current_spec()) ==> r == UiEventResult::NotHandled
                && *final(self) == *old(self),
            old(self).wf() ==> final(self).wf(),
    {
        let ghost names = strs_view(self.boards@);
        proof {
            lemma_name_position(names, self.current@);
            assert(names.len() == self.boards@.len());
        }
        match find_name(&self.boards, self.current.as_str()) {
            Some(i) => {
                let n = if i == 0 {
                    self.boards.len() - 1
                } else {
                    i - 1
                };
                self.current = self.boards[n].clone();
                self.inner = MainBoardState::new();
                assert(names[n as int] == self.boards@[n as int]@);
                UiEventResult::RequiresRedraw
            },
            None => UiEventResult::NotHandled,
        }
    }

    /// Handles an event: right and left page through the chain; anything else
    /// goes to the main board of the current board, given whether the settings
    /// have unsaved changes.
    pub fn handle_ui_event(&mut self, event: UiEvent, dirty: bool) -> (r: MainAction)
        ensures
            final(self).boards_spec() == old(self).boards_spec(),
            old(self).wf() ==> final(self).wf(),
            match event {
                UiEvent::KeyDown(ke) => if vk_of(ke.key) == VK_RARROW && old(self).wf() {
                    r == MainAction::Reply(UiEventResult::RequiresRedraw) && final(self).current_spec()
                        == next_in_chain(old(self).boards_spec(), old(self).current_spec())
                        && final(self).inner_spec().modifier_spec() == ModifierState::none()
                } else if vk_of(ke.key) == VK_LARROW && old(self).wf() {
                    r == MainAction::Reply(UiEventResult::RequiresRedraw) && final(self).current_spec()
                        == previous_in_chain(old(self).boards_spec(), old(self).current_spec())
                        && final(self).inner_spec().modifier_spec() == ModifierState::none()
                } else {
                    final(self).current_spec() == old(self).current_spec() && (
                    r,
                    final(self).inner_spec().modifier_spec(),
                ) == main_step(old(self).inner_spec().modifier_spec(), event, dirty)
                },
                _ => final(self).current_spec() == old(self).current_spec() && (
                    r,
                    final(self).inner_spec().modifier_spec(),
                ) == main_step(old(self).inner_spec().modifier_spec(), event, dirty),
            },
    {
        if let UiEvent::KeyDown(ke) = event {
            let vk = vk_code(ke.key);
            let moved = if vk == VK_RARROW {
                self.move_next()
            } else if vk == VK_LARROW {
                self.move_previous()
            } else {
                UiEventResult::NotHandled
            };
            if moved != UiEventResult::NotHandled {
                return MainAction::Reply(moved);
            }
        }
        self.inner.handle_ui_event(event, dirty)
    }
}


/// The board reached from `cur` after paging right `k` times.
pub open spec fn chain_after(boards: Seq<Seq<char>>, cur: Seq<char>, k: nat) -> Seq<char>
    decreases k,
{
    if k == 0 {
        cur
    } else {
        next_in_chain(boards, chain_after(boards, cur, (k - 1) as nat))
    }
}

/// In a chain of distinct names that holds `cur`, paging right and then left, or
/// left and then right, comes back to `cur`.
pub proof fn law_chain_next_previous(boards: Seq<Seq<char>>, cur: Seq<char>)
    requires
        all_distinct(boards),
        boards.contains(cur),
    ensures
        previous_in_chain(boards, next_in_chain(boards, cur)) == cur,
        next_in_chain(boards, previous_in_chain(boards, cur)) == cur,
{
    let len = boards.len() as int;
    lemma_name_position(boards, cur);
    let i = name_position(boards, cur)->0;
    let n = (i + 1) % len;
    if i + 1 < len {
        lemma_small_mod((i + 1) as nat, len as nat);
    } else {
        lemma_mod_self_0(len);
    }
    lemma_position_distinct(boards, n);
    let p = if i == 0 {
        len - 1
    } else {
        i - 1
    };
    lemma_position_distinct(boards, p);
    if p + 1 < len {
        lemma_small_mod((p + 1) as nat, len as nat);
    } else {
        lemma_mod_self_0(len);
    }
}

/// Paging right `k` times from position `i` reaches position `(i + k) % len`.
proof fn lemma_chain_after(boards: Seq<Seq<char>>, cur: Seq<char>, k: nat)
    requires
        all_distinct(boards),
        boards.contains(cur),
    ensures
        name_position(boards, cur) is Some,
        chain_after(boards, cur, k) == boards[(name_position(boards, cur)->0 + k) % (boards.len() as int)],
    decreases k,
{
    let len = boards.len() as int;
    lemma_name_position(boards, cur);
    let i = name_position(boards, cur)->0;
    if k == 0 {
        lemma_small_mod(i as nat, len as nat);
    } else {
        lemma_chain_after(boards, cur, (k - 1) as nat);
        let m = (i + k - 1) % len;
        lemma_mod_bound(i + k - 1, len);
        lemma_position_distinct(boards, m);
        lemma_add_mod_noop(i + k - 1, 1, len);
        if len > 1 {
            lemma_small_mod(1, len as nat);
        } else {
            assert((m + 1) % len == 0);
            assert((i + k) % len == 0);
        }
    }
}

/// In a chain of distinct names, paging right as many times as there are boards
/// comes back to the board it started on.
pub proof fn law_chain_wraps_around(boards: Seq<Seq<char>>, cur: Seq<char>)
    requires
        all_distinct(boards),
        boards.contains(cur),
    ensures
        chain_after(boards, cur, boards.len()) == cur,
{
    lemma_chain_after(boards, cur, boards.len());
    lemma_name_position(boards, cur);
    let len = boards.len() as int;
    let i = name_position(boards, cur)->0;
    lemma_add_mod_noop(i, len, len);
    lemma_mod_self_0(len);
    lemma_small_mod(i as nat, len as nat);
}


/// The title of the window a board is made for: the "window_title" parameter,
/// else the "process_name" parameter, else "New board".
pub open spec fn window_title_spec(ps: Seq<(Seq<char>, Seq<char>)>) -> Seq<char> {
    match find_param(ps, "window_title"@) {
        Some(w) => w,
        None => match find_param(ps, "process_name"@) {
            Some(p) => p,
            None => "New board"@,
        },
    }
}

/// The title of the window a board is made for.
pub fn window_title(params: &Vec<Param>) -> (r: String)
    ensures
        r@ == window_title_spec(params_view(params@)),
{
    match find_param_in(params, "window_title") {
        Some(w) => w.value,
        None => match find_param_in(params, "process_name") {
            Some(p) => p.value,
            None => owned("New board"),
        },
    }
}

/// What the home board does when it becomes active: when its parameters name a
/// process, it offers to create a board for that process, giving the process
/// name and the window title.
pub fn home_activation(params: &Vec<Param>) -> (r: Option<(String, String)>)
    ensures
        match find_param(params_view(params@), "process_name"@) {
            None => r is None,
            Some(p) => r matches Some((a, t)) && a@ == p && t@ == window_title_spec(params_view(params@)),
        },
{
    match find_param_in(params, "process_name") {
        Some(p) => Some((p.value, window_title(params))),
        None => None,
    }
}


/// What the edit mode of a board opens.
#[derive(Debug, Clone, Copy, PartialEq, Eq, Structural)]
pub enum BoardEdit {
    /// The editor of the board's title.
    Title,
    /// The chooser of the board's color scheme.
    ColorSchemes,
    /// The chooser of the board's text style.
    TextStyles,
    /// The editor of a pad, with the modifiers held.
    Pad(PadId, ModifierState),
    NotHandled,
}

/// What the edit mode of a board opens for an event: F2 or a right click on the
/// header the title, `c` the color schemes, `f` or `t` the text styles, a numeric
/// keypad key or a right click on a pad that pad's editor.
pub open spec fn board_edit_spec(event: UiEvent) -> BoardEdit {
    match event {
        UiEvent::KeyDown(ke) => {
            let vk = vk_of(ke.key);
            if vk == VK_F2 {
                BoardEdit::Title
            } else if vk == VK_C {
                BoardEdit::ColorSchemes
            } else if vk == VK_F || vk == VK_T {
                BoardEdit::TextStyles
            } else if VK_NUMPAD1 <= vk <= VK_NUMPAD9 {
                BoardEdit::Pad(PadId::of_num(vk - VK_NUMPAD1 + 1), ke.modifiers)
            } else {
                BoardEdit::NotHandled
            }
        },
        UiEvent::RightMouseDown(me) => match me.target {
            MouseEventTarget::Header => BoardEdit::Title,
            MouseEventTarget::Pad(p) => BoardEdit::Pad(p, me.modifiers),
        },
        UiEvent::KeyUp(_) => BoardEdit::NotHandled,
    }
}

/// What the edit mode of a board opens for an event.
pub fn board_edit(event: UiEvent) -> (r: BoardEdit)
    ensures
        r == board_edit_spec(event),
{
    match event {
        UiEvent::KeyDown(ke) => {
            let vk = vk_code(ke.key);
            if vk == VK_F2 {
                BoardEdit::Title
            } else if vk == VK_C {
                BoardEdit::ColorSchemes
            } else if vk == VK_F || vk == VK_T {
                BoardEdit::TextStyles
            } else if VK_NUMPAD1 <= vk && vk <= VK_NUMPAD9 {
                let n = (vk - VK_NUMPAD1 + 1) as i32;
                BoardEdit::Pad(PadId::from_keypad_int(n), ke.modifiers)
            } else {
                BoardEdit::NotHandled
            }
        },
        UiEvent::RightMouseDown(me) => match me.target {
            MouseEventTarget::Header => BoardEdit::Title,
            MouseEventTarget::Pad(p) => BoardEdit::Pad(p, me.modifiers),
        },
        UiEvent::KeyUp(_) => BoardEdit::NotHandled,
    }
}

/// What the edit mode opens when it becomes active, by the first part of its
/// initial path: "title", "colors", "fonts", or "pad" and a number from 1 to 9.
pub open spec fn edit_activation_spec(ps: Seq<(Seq<char>, Seq<char>)>) -> BoardEdit {
    match find_param(ps, "initial_path"@) {
        Some(v) => {
            let first = path_spec(v)[0];
            if path_spec(v).len() == 0 {
                BoardEdit::NotHandled
            } else if first == "title"@ {
                BoardEdit::Title
            } else if first == "colors"@ {
                BoardEdit::ColorSchemes
            } else if first == "fonts"@ {
                BoardEdit::TextStyles
            } else if first.len() >= 3 && first.take(3) == "pad"@ && parse_i32_spec(first.skip(3)) is Some && 1
                <= parse_i32_spec(first.skip(3))->0 <= 9 {
                BoardEdit::Pad(PadId::of_num(parse_i32_spec(first.skip(3))->0 as int), ModifierState::none())
            } else {
                BoardEdit::NotHandled
            }
        },
        None => BoardEdit::NotHandled,
    }
}

/// What the edit mode of a board opens when it becomes active.
pub fn edit_activation(params: &Vec<Param>) -> (r: BoardEdit)
    ensures
        r == edit_activation_spec(params_view(params@)),
{
    proof {
        reveal_strlit("initial_path");
        reveal_strlit("title");
        reveal_strlit("colors");
        reveal_strlit("fonts");
        reveal_strlit("pad");
    }
    match find_param_in(params, "initial_path") {
        Some(param) => {
            let path = param.value.path();
            if path.len() == 0 {
                return BoardEdit::NotHandled;
            }
            assert(crate::domain::integration::strings_view(path@)[0] == path@[0]@);
            let first = path[0].as_str();
            if str_eq(first, "title") {
                BoardEdit::Title
            } else if str_eq(first, "colors") {
                BoardEdit::ColorSchemes
            } else if str_eq(first, "fonts") {
                BoardEdit::TextStyles
            } else {
                let c = string_chars(&path[0]);
                if c.len() >= 3 && c[0] == 'p' && c[1] == 'a' && c[2] == 'd' {
                    assert(c@.take(3) =~= "pad"@);
                    let mut rest: Vec<char> = Vec::new();
                    let mut i: usize = 3;
                    while i < c.len()
                        invariant
                            3 <= i <= c@.len(),
                            rest@ == c@.subrange(3, i as int),
                        decreases c.len() - i,
                    {
                        rest.push(c[i]);
                        i = i + 1;
                        assert(rest@ =~= c@.subrange(3, i as int));
                    }
                    assert(rest@ =~= c@.skip(3));
                    let rest = string_from_chars(&rest);
                    match parse_i32(rest.as_str()) {
                        Some(n) => if 1 <= n && n <= 9 {
                            BoardEdit::Pad(PadId::from_keypad_int(n), ModifierState::default())
                        } else {
                            BoardEdit::NotHandled
                        },
                        None => BoardEdit::NotHandled,
                    }
                } else {
                    proof {
                        if c@.len() >= 3 && c@.take(3) == "pad"@ {
                            assert(c@.take(3)[0] == 'p');
                            assert(c@.take(3)[1] == 'a');
                            assert(c@.take(3)[2] == 'd');
                        }
                    }
                    BoardEdit::NotHandled
                }
            }
        },
        None => BoardEdit::NotHandled,
    }
}

} // verus!
