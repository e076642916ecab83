//! The lists of boards the settings show, nine to a page and paged by rows of
//! three, and what selecting a board in them does: delete it, create a board
//! under it or a collection with it, or make it a collection.
use vstd::prelude::*;
use crate::components::controls::{vk_code, vk_of};
use crate::components::events::{MouseEventTarget, UiEvent, UiEventResult};
use crate::components::keypad::{map_pad_id, pad_number_of_key};
use crate::domain::data::{strs_view, Board, BoardV};
use crate::domain::integration::{chain_boards_spec, opt_view, BoardType, BoardTypeView, ChainParams};
use crate::input::keys::vkey::{VK_B, VK_C, VK_DARROW, VK_ESC, VK_R, VK_S, VK_T, VK_UARROW};
use crate::model::data::PadId;
use crate::model::handle::{
    board_named, board_replaced, board_title, child_created, convert_check, create_board, find_last, last_index_of,
    ConvertToBoardChainUseCase,
};
use crate::settings::persistence::boards_view;
use crate::settings::settings::{lemma_name_position, name_position, Settings};
use crate::settings::validation::board_names;
use crate::text::{concat3, join, join_strings, owned, str_eq, string_chars, string_from_chars};

verus! {

/// Which boards a list shows.
#[derive(Debug, Clone, Copy, PartialEq, Eq, Structural)]
pub enum BoardFilter {
    /// Every board.
    All,
    /// Every board but the home boards.
    NotHome,
    /// The static boards.
    StaticOnly,
    /// The boards that are detected.
    Detected,
    /// The board chains (collections).
    ChainOnly,
    /// Every board but the chains.
    NotChain,
}

/// Whether a list with this filter shows the board.
pub open spec fn keeps(f: BoardFilter, b: BoardV) -> bool {
    match f {
        BoardFilter::All => true,
        BoardFilter::NotHome => !(b.board_type is Home),
        BoardFilter::StaticOnly => b.board_type is Static,
        BoardFilter::Detected => !(b.detection is NoMatch),
        BoardFilter::ChainOnly => b.board_type is Chain,
        BoardFilter::NotChain => !(b.board_type is Chain),
    }
}

/// Whether a list with this filter shows the board.
pub fn filter_keeps(f: BoardFilter, b: &Board) -> (r: bool)
    ensures
        r == keeps(f, b@),
{
    match f {
        BoardFilter::All => true,
        BoardFilter::NotHome => !matches!(b.board_type, BoardType::Home),
        BoardFilter::StaticOnly => matches!(b.board_type, BoardType::Static),
        BoardFilter::Detected => !matches!(b.detection, crate::domain::data::Detection::NoMatch),
        BoardFilter::ChainOnly => matches!(b.board_type, BoardType::Chain(_)),
        BoardFilter::NotChain => !matches!(b.board_type, BoardType::Chain(_)),
    }
}

/// The boards by their names in order, each the first board of its name.
pub open spec fn resolved_boards(s: &Settings) -> Seq<BoardV> {
    board_names(s.boards_v()).map_values(|n: Seq<char>| board_named(s, n)->0)
}

/// The boards a list with this filter shows, in order.
pub open spec fn listed_boards(s: &Settings, f: BoardFilter) -> Seq<BoardV> {
    resolved_boards(s).filter(|b: BoardV| keeps(f, b))
}

/// The last page of a list of `n` boards: nine fit on the first page, and each
/// further page shows one more row of three.
pub open spec fn last_page(n: nat) -> nat {
    if n <= 9 {
        0
    } else {
        ((n + 2) / 3 - 3) as nat
    }
}

/// The pad that shows the entry at position `i` of a page: the rows are filled
/// from the top of the keypad, 7 8 9, then 4 5 6, then 1 2 3.
pub open spec fn slot_pad(i: int) -> PadId {
    if i == 0 {
        PadId::Seven
    } else if i == 1 {
        PadId::Eight
    } else if i == 2 {
        PadId::Nine
    } else if i == 3 {
        PadId::Four
    } else if i == 4 {
        PadId::Five
    } else if i == 5 {
        PadId::Six
    } else if i == 6 {
        PadId::One
    } else if i == 7 {
        PadId::Two
    } else {
        PadId::Three
    }
}

/// The marks that tell the kind of a board: a house for the home board, a gear
/// for the settings, a link for a collection, a clipboard for a static board, a
/// target when it is detected.
pub open spec fn board_marks(b: BoardV) -> Seq<char> {
    match b.board_type {
        BoardTypeView::Home => if b.name == "home"@ {
            "🏠"@
        } else if b.name == "settings"@ {
            "⚙"@
        } else {
            Seq::empty()
        },
        BoardTypeView::Chain(_, _, _) => if b.detection is NoMatch {
            "🔗"@
        } else {
            "🔗🎯"@
        },
        BoardTypeView::Static => if b.detection is NoMatch {
            "📋"@
        } else {
            "🎯"@
        },
        _ => Seq::empty(),
    }
}

/// The header shown over a board in a list: the title of its parent, the board
/// named by the part of its name before the last `/`, when there is one.
pub open spec fn entry_header(s: &Settings, name: Seq<char>) -> Seq<char> {
    let li = last_index_of(name, '/');
    if li >= 0 {
        match board_named(s, name.take(li)) {
            Some(p) => board_title(p),
            None => Seq::empty(),
        }
    } else {
        Seq::empty()
    }
}

/// What a list shows for a board on a pad.
pub struct ListEntry {
    pub pad: PadId,
    pub header: String,
    pub title: String,
    pub icon: Option<String>,
    pub board: String,
    pub marks: String,
}

/// What an entry stands for.
pub struct ListEntryV {
    pub pad: PadId,
    pub header: Seq<char>,
    pub title: Seq<char>,
    pub icon: Option<Seq<char>>,
    pub board: Seq<char>,
    pub marks: Seq<char>,
}

impl View for ListEntry {
    type V = ListEntryV;

    open spec fn view(&self) -> ListEntryV {
        ListEntryV {
            pad: self.pad,
            header: self.header@,
            title: self.title@,
            icon: opt_view(self.icon),
            board: self.board@,
            marks: self.marks@,
        }
    }
}

/// The entry for a board at position `i` of a page.
pub open spec fn entry_of(s: &Settings, b: BoardV, i: int) -> ListEntryV {
    ListEntryV {
        pad: slot_pad(i),
        header: entry_header(s, b.name),
        title: board_title(b),
        icon: b.icon,
        board: b.name,
        marks: board_marks(b),
    }
}

/// The entries of a page: up to nine boards from row `page` on.
pub open spec fn page_entries_spec(s: &Settings, f: BoardFilter, page: int) -> Seq<ListEntryV> {
    let bs = listed_boards(s, f);
    let start = page * 3;
    let end = if start + 9 < bs.len() {
        start + 9
    } else {
        bs.len() as int
    };
    if start < end {
        Seq::new((end - start) as nat, |i: int| entry_of(s, bs[start + i], i))
    } else {
        Seq::empty()
    }
}

/// The page and the answer of a list after an event, given its last page:
/// escape leaves the list; up and down page within the list; a pad's key or a
/// right click on a pad selects it.
pub open spec fn list_step(page: nat, last: nat, event: UiEvent, natural_key_order: bool) -> (nat, UiEventResult) {
    match event {
        UiEvent::KeyDown(ke) => {
            let vk = vk_of(ke.key);
            if vk == VK_ESC {
                (page, UiEventResult::PopState)
            } else if vk == VK_UARROW {
                if page > 0 {
                    ((page - 1) as nat, UiEventResult::RequiresRedraw)
                } else {
                    (page, UiEventResult::NotHandled)
                }
            } else if vk == VK_DARROW {
                if page < last {
                    (page + 1, UiEventResult::RequiresRedraw)
                } else {
                    (page, UiEventResult::NotHandled)
                }
            } else {
                let p = pad_number_of_key(vk, natural_key_order);
                if 1 <= p <= 9 {
                    (page, UiEventResult::PadSelected(PadId::of_num(p)))
                } else {
                    (page, UiEventResult::NotHandled)
                }
            }
        },
        UiEvent::RightMouseDown(me) => match me.target {
            MouseEventTarget::Pad(p) => (page, UiEventResult::PadSelected(p)),
            MouseEventTarget::Header => (page, UiEventResult::NotHandled),
        },
        UiEvent::KeyUp(_) => (page, UiEventResult::NotHandled),
    }
}

/// Whether the page a list shows has the board `n` on the pad.
pub open spec fn shows(s: &Settings, list: BoardList, pad: PadId, n: Seq<char>) -> bool {
    let es = page_entries_spec(s, list.filter_spec(), list.page_spec() as int);
    exists|q: int| 0 <= q < es.len() && #[trigger] es[q].pad == pad && es[q].board == n
}

/// Whether the page a list shows has no board on the pad.
pub open spec fn shows_none(s: &Settings, list: BoardList, pad: PadId) -> bool {
    let es = page_entries_spec(s, list.filter_spec(), list.page_spec() as int);
    forall|q: int| 0 <= q < es.len() ==> #[trigger] es[q].pad != pad
}

/// A list of boards and the page it shows.
pub struct BoardList {
    filter: BoardFilter,
    current_page: usize,
}

impl BoardList {
    /// The filter of the list.
    pub closed spec fn filter_spec(&self) -> BoardFilter {
        self.filter
    }

    /// The page shown, counted in rows from the top.
    pub closed spec fn page_spec(&self) -> nat {
        self.current_page as nat
    }

    /// A list on its first page.
    pub fn new(filter: BoardFilter) -> (r: Self)
        ensures
            r.filter_spec() == filter,
            r.page_spec() == 0,
    {
        Self { filter, current_page: 0 }
    }

    /// The filter of the list.
    pub fn filter(&self) -> (r: BoardFilter)
        ensures
            r == self.filter_spec(),
    {
        self.filter
    }

    /// The page shown.
    pub fn current_page(&self) -> (r: usize)
        ensures
            r == self.page_spec(),
    {
        self.current_page
    }

    /// The boards the list shows, in order.
    pub fn boards(&self, settings: &Settings) -> (r: Vec<Board>)
        ensures
            boards_view(r@) == listed_boards(settings, self.filter_spec()),
    {
        let names = settings.boards();
        let ghost all = resolved_boards(settings);
        let ghost pred = |b: BoardV| keeps(self.filter, b);
        let mut out: Vec<Board> = Vec::new();
        let mut i: usize = 0;
        proof {
            reveal_with_fuel(Seq::<_>::filter, 1);
            assert(all.take(0) =~= Seq::<BoardV>::empty());
        }
        while i < names.len()
            invariant
                i <= names@.len(),
                strs_view(names@) == board_names(settings.boards_v()),
                all == resolved_boards(settings),
                all.len() == names@.len(),
                pred == (|b: BoardV| keeps(self.filter, b)),
                boards_view(out@) == all.take(i as int).filter(pred),
            decreases names.len() - i,
        {
            proof {
                assert(all.take(i + 1) =~= all.take(i as int).push(all[i as int]));
                all.take(i as int).lemma_filter_push(all[i as int], pred);
                assert(strs_view(names@)[i as int] == names@[i as int]@);
                lemma_name_position(board_names(settings.boards_v()), names@[i as int]@);
            }
            match settings.get_board(names[i].as_str()) {
                Ok(b) => {
                    assert(b@ == all[i as int]);
                    if filter_keeps(self.filter, &b) {
                        let ghost before = boards_view(out@);
                        out.push(b);
                        assert(boards_view(out@) =~= before.push(all[i as int]));
                    }
                },
                Err(_) => {
                    assert(false);
                },
            }
            i = i + 1;
        }
        assert(all.take(names@.len() as int) =~= all);
        out
    }

    /// The last page of the list.
    pub fn max_page(&self, settings: &Settings) -> (r: usize)
        ensures
            r == last_page(listed_boards(settings, self.filter_spec()).len()),
    {
        let n = self.boards(settings).len();
        if n <= 9 {
            0
        } else {
            (n / 3 + if n % 3 == 0 { 0 } else { 1 }) - 3
        }
    }

    /// Brings the page back within the list, which may have become shorter.
    pub fn clamp_current_page(&mut self, settings: &Settings)
        ensures
            final(self).filter_spec() == old(self).filter_spec(),
            final(self).page_spec() == if old(self).page_spec() > last_page(
                listed_boards(settings, old(self).filter_spec()).len(),
            ) {
                last_page(listed_boards(settings, old(self).filter_spec()).len())
            } else {
                old(self).page_spec()
            },
    {
        let max_page = self.max_page(settings);
        if self.current_page > max_page {
            self.current_page = max_page;
        }
    }

    /// Goes to the last page.
    pub fn move_to_end(&mut self, settings: &Settings)
        ensures
            final(self).filter_spec() == old(self).filter_spec(),
            final(self).page_spec() == last_page(listed_boards(settings, old(self).filter_spec()).len()),
    {
        self.current_page = self.max_page(settings);
    }

    /// The entries of the page shown.
    pub fn page_entries(&self, settings: &Settings) -> (r: Vec<ListEntry>)
        requires
            self.page_spec() * 3 + 9 <= usize::MAX,
        ensures
            r@.map_values(|e: ListEntry| e@) == page_entries_spec(settings, self.filter_spec(), self.page_spec() as int),
    {
        let all = self.boards(settings);
        let ghost bs = listed_boards(settings, self.filter);
        let start = self.current_page * 3;
        let end = if start + 9 < all.len() {
            start + 9
        } else {
            all.len()
        };
        let mut out: Vec<ListEntry> = Vec::new();
        let mut i = start;
        while i < end
            invariant
                start == self.current_page * 3,
                start + 9 <= usize::MAX,
                end <= all@.len(),
                end == (if start + 9 < all@.len() { start + 9 } else { all@.len() as int }),
                boards_view(all@) == bs,
                bs == listed_boards(settings, self.filter),
                start <= i <= end || (start > end && i == start),
                out@.len() == if i >= start { i - start } else { 0 },
                forall|q: int| 0 <= q < out@.len() ==> #[trigger] out@[q]@ == entry_of(settings, bs[start + q], q),
            decreases end - i,
        {
            let b = &all[i];
            assert(b@ == bs[i as int]);
            let e = self.entry(settings, b, i - start);
            out.push(e);
            i = i + 1;
        }
        assert(out@.map_values(|e: ListEntry| e@) =~= page_entries_spec(
            settings,
            self.filter,
            self.current_page as int,
        ));
        out
    }

    /// The entry for a board at position `i` of a page.
    fn entry(&self, settings: &Settings, b: &Board, i: usize) -> (r: ListEntry)
        requires
            i < 9,
        ensures
            r@ == entry_of(settings, b@, i as int),
    {
        let pad = if i == 0 {
            PadId::Seven
        } else if i == 1 {
            PadId::Eight
        } else if i == 2 {
            PadId::Nine
        } else if i == 3 {
            PadId::Four
        } else if i == 4 {
            PadId::Five
        } else if i == 5 {
            PadId::Six
        } else if i == 6 {
            PadId::One
        } else if i == 7 {
            PadId::Two
        } else {
            PadId::Three
        };
        let header = parent_title(settings, &b.name);
        let marks = marks_of(b);
        let icon = crate::domain::integration::clone_opt(&b.icon);
        ListEntry { pad, header, title: b.title(), icon, board: b.name.clone(), marks }
    }

    /// The name of the board on a pad of the page shown, if a board is there.
    pub fn board_at(&self, settings: &Settings, pad: PadId) -> (r: Option<String>)
        requires
            self.page_spec() * 3 + 9 <= usize::MAX,
        ensures
            match r {
                Some(n) => shows(settings, *self, pad, n@),
                None => shows_none(settings, *self, pad),
            },
    {
        let entries = self.page_entries(settings);
        let ghost es = page_entries_spec(settings, self.filter_spec(), self.page_spec() as int);
        let mut q: usize = 0;
        while q < entries.len()
            invariant
                q <= entries@.len(),
                entries@.map_values(|e: ListEntry| e@) == es,
                es == page_entries_spec(settings, self.filter_spec(), self.page_spec() as int),
                forall|j: int| 0 <= j < q ==> #[trigger] es[j].pad != pad,
            decreases entries.len() - q,
        {
            assert(es[q as int] == entries@[q as int]@);
            if entries[q].pad == pad {
                let n = entries[q].board.clone();
                assert(es[q as int].pad == pad && es[q as int].board == n@);

                return Some(n);
            }
            q = q + 1;
        }
        None
    }

    /// Handles an event: escape leaves the list, up and down page within it, a
    /// pad's key or a right click on a pad selects that pad.
    pub fn handle_ui_event(&mut self, settings: &Settings, event: UiEvent) -> (r: UiEventResult)
        ensures
            final(self).filter_spec() == old(self).filter_spec(),
            (final(self).page_spec(), r) == list_step(
                old(self).page_spec(),
                last_page(listed_boards(settings, old(self).filter_spec()).len()),
                event,
                settings.data_spec().natural_key_order,
            ),
    {
        match event {
            UiEvent::KeyDown(ke) => {
                let vk = vk_code(ke.key);
                if vk == VK_ESC {
                    UiEventResult::PopState
                } else if vk == VK_UARROW {
                    if self.current_page > 0 {
                        self.current_page = self.current_page - 1;
                        UiEventResult::RequiresRedraw
                    } else {
                        UiEventResult::NotHandled
                    }
                } else if vk == VK_DARROW {
                    if self.current_page < self.max_page(settings) {
                        self.current_page = self.current_page + 1;
                        UiEventResult::RequiresRedraw
                    } else {
                        UiEventResult::NotHandled
                    }
                } else {
                    match map_pad_id(vk, settings.natural_key_order()) {
                        Some(p) => UiEventResult::PadSelected(p),
                        None => UiEventResult::NotHandled,
                    }
                }
            },
            UiEvent::RightMouseDown(me) => match me.target {
                MouseEventTarget::Pad(p) => UiEventResult::PadSelected(p),
                MouseEventTarget::Header => UiEventResult::NotHandled,
            },
            UiEvent::KeyUp(_) => UiEventResult::NotHandled,
        }
    }
}

/// The title of a board's parent, empty when its name has no `/` or no board
/// has the name before the last `/`.
fn parent_title(settings: &Settings, name: &String) -> (r: String)
    ensures
        r@ == entry_header(settings, name@),
{
    let c = string_chars(name);
    match find_last(&c, '/') {
        Some(k) => {
            let mut base: Vec<char> = Vec::new();
            let mut i: usize = 0;
            while i < k
                invariant
                    i <= k < c@.len(),
                    base@ == c@.take(i as int),
                decreases k - i,
            {
                base.push(c[i]);
                i = i + 1;
                assert(base@ =~= c@.take(i as int));
            }
            let base = string_from_chars(&base);
            proof {
                lemma_name_position(board_names(settings.boards_v()), base@);
            }
            match settings.get_board(base.as_str()) {
                Ok(p) => p.title(),
                Err(_) => String::new(),
            }
        },
        None => String::new(),
    }
}

/// The marks of a board's kind.
fn marks_of(b: &Board) -> (r: String)
    ensures
        r@ == board_marks(b@),
{
    proof {
        reveal_strlit("home");
        reveal_strlit("settings");
    }
    let none = matches!(b.detection, crate::domain::data::Detection::NoMatch);
    match &b.board_type {
        BoardType::Home => if str_eq(b.name.as_str(), "home") {
            owned("🏠")
        } else if str_eq(b.name.as_str(), "settings") {
            owned("⚙")
        } else {
            String::new()
        },
        BoardType::Chain(_) => if none {
            owned("🔗")
        } else {
            owned("🔗🎯")
        },
        BoardType::Static => if none {
            owned("📋")
        } else {
            owned("🎯")
        },
        _ => String::new(),
    }
}


/// The `-` key of the numeric keypad.
pub const VK_SUBTRACT: u16 = 0x6D;
/// The `-` key of the main keyboard.
pub const VK_OEM_MINUS: u16 = 0xBD;
/// The `+` key of the numeric keypad.
pub const VK_ADD: u16 = 0x6B;
/// The `+` (`=`) key of the main keyboard.
pub const VK_OEM_PLUS: u16 = 0xBB;
/// The `M` key.
pub const VK_M: u16 = 0x4D;

/// The lists that the list of all boards opens.
#[derive(Debug, Clone, Copy, PartialEq, Eq, Structural)]
pub enum ListKind {
    /// The boards that can be deleted (`-`).
    Delete,
    /// The static boards to create a board under or a collection with (`+`).
    Create,
    /// The collections (`c`).
    Chains,
    /// The detected boards, to make collections (`m`).
    Convert,
}

/// The list that a key opens from the list of all boards.
pub open spec fn list_key_spec(event: UiEvent) -> Option<ListKind> {
    match event {
        UiEvent::KeyDown(ke) => {
            let vk = vk_of(ke.key);
            if vk == VK_OEM_MINUS || vk == VK_SUBTRACT {
                Some(ListKind::Delete)
            } else if vk == VK_OEM_PLUS || vk == VK_ADD {
                Some(ListKind::Create)
            } else if vk == VK_C {
                Some(ListKind::Chains)
            } else if vk == VK_M {
                Some(ListKind::Convert)
            } else {
                None
            }
        },
        _ => None,
    }
}

/// The list that an event opens from the list of all boards; other events go to
/// the list itself.
pub fn list_key(event: UiEvent) -> (r: Option<ListKind>)
    ensures
        r == list_key_spec(event),
{
    match event {
        UiEvent::KeyDown(ke) => {
            let vk = vk_code(ke.key);
            if vk == VK_OEM_MINUS || vk == VK_SUBTRACT {
                Some(ListKind::Delete)
            } else if vk == VK_OEM_PLUS || vk == VK_ADD {
                Some(ListKind::Create)
            } else if vk == VK_C {
                Some(ListKind::Chains)
            } else if vk == VK_M {
                Some(ListKind::Convert)
            } else {
                None
            }
        },
        _ => None,
    }
}

/// What selecting a board in the list of static boards asks for.
#[derive(Debug, Clone, PartialEq, Eq)]
pub enum CreateRequest {
    /// With Ctrl held: whether to make a collection with the board, and the
    /// question.
    NewCollection(String, String),
    /// Otherwise: the keyword of a new board under the board.
    NewSubBoard(String),
}

/// The board on a pad of the list of deletable boards, and the question asked
/// before deleting it.
pub fn delete_request(list: &BoardList, settings: &Settings, pad: PadId) -> (r: Option<(String, String)>)
    requires
        list.page_spec() * 3 + 9 <= usize::MAX,
    ensures
        match r {
            Some((n, q)) => shows(settings, *list, pad, n@) && q@ == "Delete board\n\""@ + n@ + "\"?"@,
            None => shows_none(settings, *list, pad),
        },
{
    match list.board_at(settings, pad) {
        Some(n) => {
            let q = concat3("Delete board\n\"", n.as_str(), "\"?");
            Some((n, q))
        },
        None => None,
    }
}

/// What selecting the board on a pad of the list of static boards asks for:
/// with Ctrl, whether to make a collection with it; otherwise the keyword of a
/// new board under it.
pub fn create_request(list: &BoardList, settings: &Settings, pad: PadId, ctrl: bool) -> (r: Option<CreateRequest>)
    requires
        list.page_spec() * 3 + 9 <= usize::MAX,
    ensures
        match r {
            Some(CreateRequest::NewCollection(n, q)) => ctrl && shows(settings, *list, pad, n@) && q@
                == "Create new Collection with board\n\""@ + n@ + "\""@,
            Some(CreateRequest::NewSubBoard(n)) => !ctrl && shows(settings, *list, pad, n@),
            None => shows_none(settings, *list, pad),
        },
{
    match list.board_at(settings, pad) {
        Some(n) => if ctrl {
            let q = concat3("Create new Collection with board\n\"", n.as_str(), "\"");
            Some(CreateRequest::NewCollection(n, q))
        } else {
            Some(CreateRequest::NewSubBoard(n))
        },
        None => None,
    }
}

/// Creates a board under `parent` for the keyword given, as `create_board`
/// does, and on success shows the last page of the list; nothing happens for an
/// empty keyword.
pub fn create_sub_board(list: &mut BoardList, settings: &mut Settings, parent: String, keyword: String) -> (r:
    Option<Result<Board, String>>)
    ensures
        final(list).filter_spec() == old(list).filter_spec(),
        keyword@.len() == 0 ==> r is None && *final(settings) == *old(settings) && final(list).page_spec() == old(
            list,
        ).page_spec(),
        keyword@.len() > 0 ==> r is Some && child_created(old(settings), final(settings), parent@, keyword@, r->0)
            && final(list).page_spec() == if r->0 is Ok {
            last_page(listed_boards(final(settings), old(list).filter_spec()).len())
        } else {
            old(list).page_spec()
        },
{
    proof {
        reveal_strlit("");
        if keyword@.len() == 0 {
            assert(keyword@ =~= ""@);
        }
    }
    if str_eq(keyword.as_str(), "") {
        return None;
    }
    let res = create_board(settings, parent, keyword);
    if res.is_ok() {
        list.move_to_end(settings);
    }
    Some(res)
}

/// The board on a pad of the list of detected boards and the question asked
/// before making it a collection; or the error of its checks. None when no
/// board is on the pad or none has that name.
pub fn convert_request(list: &BoardList, settings: &Settings, pad: PadId) -> (r: Option<Result<(String, String), String>>)
    requires
        list.page_spec() * 3 + 9 <= usize::MAX,
    ensures
        match r {
            None => shows_none(settings, *list, pad) || exists|n: Seq<char>|
                shows(settings, *list, pad, n) && board_named(settings, n) is None,
            Some(Err(e)) => exists|n: Seq<char>|
                shows(settings, *list, pad, n) && board_named(settings, n) is Some && #[trigger] convert_check(
                    settings,
                    n,
                ) == Err::<(), Seq<char>>(e@),
            Some(Ok((n, q))) => shows(settings, *list, pad, n@) && board_named(settings, n@) is Some && convert_check(
                settings,
                n@,
            ) is Ok && q@ == "Convert\n\""@ + n@ + "\"\nto Collection?"@,
        },
{
    match list.board_at(settings, pad) {
        Some(n) => {
            proof {
                lemma_name_position(board_names(settings.boards_v()), n@);
            }
            if settings.get_board(n.as_str()).is_err() {
                return None;
            }
            let uc = ConvertToBoardChainUseCase::new(n);
            match uc.validate(settings) {
                Ok(_) => {
                    let n = owned(uc.board_name());
                    let q = concat3("Convert\n\"", n.as_str(), "\"\nto Collection?");
                    Some(Ok((n, q)))
                },
                Err(e) => Some(Err(e)),
            }
        },
        None => None,
    }
}


/// The names of the boards.
pub open spec fn names_of(bs: Seq<BoardV>) -> Seq<Seq<char>> {
    bs.map_values(|b: BoardV| b.name)
}

/// What the editor of the collection `name` starts from: the boards it lists,
/// the board it starts on, and the names of the boards that are not
/// collections, which it may list.
pub fn chain_edit_input(settings: &Settings, name: &str) -> (r: Result<(Vec<String>, Option<String>, Vec<String>), String>)
    ensures
        match board_named(settings, name@) {
            None => r matches Err(e) && e@ == "No valid Collection board selected"@,
            Some(b) => match b.board_type {
                BoardTypeView::Chain(boards, initial, _) => r matches Ok((bs, ini, others)) && strs_view(bs@)
                    == chain_boards_spec(boards) && opt_view(ini) == initial && strs_view(others@) == names_of(
                    listed_boards(settings, BoardFilter::NotChain),
                ),
                _ => r matches Err(e) && e@ == "Selected board is not a Collection board"@,
            },
        },
{
    proof {
        lemma_name_position(board_names(settings.boards_v()), name@);
    }
    let board = match settings.get_board(name) {
        Ok(b) => b,
        Err(_) => return Err(owned("No valid Collection board selected")),
    };
    match &board.board_type {
        BoardType::Chain(params) => {
            let bs = params.boards();
            assert(strs_view(bs@) == crate::domain::integration::strings_view(bs@));
            let ini = crate::domain::integration::clone_opt(&params.initial_board);
            let all = BoardList::new(BoardFilter::NotChain).boards(settings);
            let mut others: Vec<String> = Vec::new();
            let mut i: usize = 0;
            while i < all.len()
                invariant
                    i <= all@.len(),
                    others@.len() == i,
                    forall|q: int| 0 <= q < i ==> #[trigger] others@[q]@ == all@[q].name@,
                decreases all.len() - i,
            {
                others.push(all[i].name.clone());
                i = i + 1;
            }
            assert(strs_view(others@) =~= names_of(boards_view(all@)));
            Ok((bs, ini, others))
        },
        _ => Err(owned("Selected board is not a Collection board")),
    }
}

/// Sets what the collection `name` lists and starts on, keeping its other
/// parameters. Fails, changing nothing, when there is no such board or it is no
/// collection.
pub fn apply_chain_edit(settings: &mut Settings, name: &str, boards: &Vec<String>, initial: String) -> (r: Result<
    (),
    String,
>)
    ensures
        match board_named(old(settings), name@) {
            None => r matches Err(e) && e@ == "No valid Collection board selected"@ && *final(settings) == *old(settings),
            Some(b) => match b.board_type {
                BoardTypeView::Chain(_, _, params) => r is Ok && board_replaced(
                    old(settings),
                    final(settings),
                    name@,
                    BoardV {
                        board_type: BoardTypeView::Chain(join(strs_view(boards@), ","@), Some(initial@), params),
                        ..b
                    },
                ),
                _ => r matches Err(e) && e@ == "Selected board is not a Collection board"@ && *final(settings)
                    == *old(settings),
            },
        },
{
    proof {
        lemma_name_position(board_names(settings.boards_v()), name@);
    }
    let mut board = match settings.get_board(name) {
        Ok(b) => b,
        Err(_) => return Err(owned("No valid Collection board selected")),
    };
    let ghost b0 = board@;
    let ghost k = name_position(board_names(settings.boards_v()), name@)->0;
    assert(board.name@ == name@) by {
        assert(board_names(settings.boards_v())[k] == settings.boards_v()[k].name);
    }
    let params = match &board.board_type {
        BoardType::Chain(p) => crate::domain::integration::clone_params(&p.params),
        _ => return Err(owned("Selected board is not a Collection board")),
    };
    let joined = join_strings(boards, ",");
    assert(strs_view(boards@) == boards@.map_values(|p: String| p@));
    board.board_type = BoardType::Chain(ChainParams { boards: joined, initial_board: Some(initial), params });
    let ghost s0 = *settings;
    let ghost bv = board@;
    let res = settings.set_board(board);
    proof {
        if res is Ok {
            assert(boards_view(settings.data_spec().boards@) =~= boards_view(s0.data_spec().boards@).update(k, bv));
        }
    }
    res
}


/// The `Z` key.
pub const VK_Z: u16 = 0x5A;

/// What the settings board opens or does.
#[derive(Debug, Clone, Copy, PartialEq, Eq, Structural)]
pub enum SettingsAction {
    /// Move the window (pad 2 or `m`).
    Move,
    /// Resize the window (pad 3 or `z`).
    Resize,
    /// Reload the settings from their files (pad 5 or `r`).
    Reload,
    /// Write the settings to their files (pad 6 or `s`).
    Save,
    /// The list of boards (pad 7 or `b`).
    Boards,
    /// The color scheme editor (pad 8 or `c`).
    ColorSchemes,
    /// The text style editor (pad 9 or `t`).
    TextStyles,
    NotHandled,
}

/// What the settings board does for a key: the pad it selects, or its letter,
/// in the order of the pads.
pub open spec fn settings_key_spec(vk: u16, natural_key_order: bool) -> SettingsAction {
    let p = pad_number_of_key(vk, natural_key_order);
    if p == 2 || vk == VK_M {
        SettingsAction::Move
    } else if p == 3 || vk == VK_Z {
        SettingsAction::Resize
    } else if p == 5 || vk == VK_R {
        SettingsAction::Reload
    } else if p == 6 || vk == VK_S {
        SettingsAction::Save
    } else if p == 7 || vk == VK_B {
        SettingsAction::Boards
    } else if p == 8 || vk == VK_C {
        SettingsAction::ColorSchemes
    } else if p == 9 || vk == VK_T {
        SettingsAction::TextStyles
    } else {
        SettingsAction::NotHandled
    }
}

/// What the settings board does for an event: keys as above, and a right click
/// on a pad as the numeric keypad key of that pad.
pub open spec fn settings_event_spec(event: UiEvent, natural_key_order: bool) -> SettingsAction {
    match event {
        UiEvent::KeyDown(ke) => settings_key_spec(vk_of(ke.key), natural_key_order),
        UiEvent::RightMouseDown(me) => match me.target {
            MouseEventTarget::Pad(p) => settings_key_spec((0x60 + p.num()) as u16, natural_key_order),
            MouseEventTarget::Header => SettingsAction::NotHandled,
        },
        UiEvent::KeyUp(_) => SettingsAction::NotHandled,
    }
}

fn settings_key(vk: u16, natural_key_order: bool) -> (r: SettingsAction)
    ensures
        r == settings_key_spec(vk, natural_key_order),
{
    let p: u8 = match map_pad_id(vk, natural_key_order) {
        Some(PadId::Two) => 2,
        Some(PadId::Three) => 3,
        Some(PadId::Five) => 5,
        Some(PadId::Six) => 6,
        Some(PadId::Seven) => 7,
        Some(PadId::Eight) => 8,
        Some(PadId::Nine) => 9,
        _ => 0,
    };
    if p == 2 || vk == VK_M {
        SettingsAction::Move
    } else if p == 3 || vk == VK_Z {
        SettingsAction::Resize
    } else if p == 5 || vk == VK_R {
        SettingsAction::Reload
    } else if p == 6 || vk == VK_S {
        SettingsAction::Save
    } else if p == 7 || vk == VK_B {
        SettingsAction::Boards
    } else if p == 8 || vk == VK_C {
        SettingsAction::ColorSchemes
    } else if p == 9 || vk == VK_T {
        SettingsAction::TextStyles
    } else {
        SettingsAction::NotHandled
    }
}

/// What the settings board does for an event, the keys mapped to pads in the
/// keypad's own order or in the natural reading order.
pub fn settings_action(event: UiEvent, natural_key_order: bool) -> (r: SettingsAction)
    ensures
        r == settings_event_spec(event, natural_key_order),
{
    match event {
        UiEvent::KeyDown(ke) => settings_key(vk_code(ke.key), natural_key_order),
        UiEvent::RightMouseDown(me) => match me.target {
            MouseEventTarget::Pad(p) => {
                let n = p.as_keypad_int();
                settings_key(0x60 + n as u16, natural_key_order)
            },
            MouseEventTarget::Header => SettingsAction::NotHandled,
        },
        UiEvent::KeyUp(_) => SettingsAction::NotHandled,
    }
}

/// Pressing the key `vk` with no modifier held.
pub open spec fn plain_key(vk: u16) -> UiEvent {
    UiEvent::KeyDown(
        crate::components::events::KeyboardEvent { key: vk as u32, modifiers: crate::input::keys::ModifierState::none() },
    )
}

/// Paging a list keeps it between its first and its last page, and down then
/// up, away from the last page, comes back to the same page.
pub proof fn law_page_stays_in_range(page: nat, last: nat, event: UiEvent, natural_key_order: bool)
    requires
        page <= last,
    ensures
        list_step(page, last, event, natural_key_order).0 <= last,
        page < last ==> list_step(
            list_step(page, last, plain_key(VK_DARROW), natural_key_order).0,
            last,
            plain_key(VK_UARROW),
            natural_key_order,
        ).0 == page,
{
}

} // verus!
