//! Operations on boards that touch several parts of the settings: deleting a
//! board with its pad sets, adding and removing a modifier pad set, and turning
//! a board into a chain of boards.
use vstd::prelude::*;
use crate::domain::data::{pads_view, pairs_view, strs_view, Board, BoardV, Detection, DetectionV, PadSet, PadSetV};
use crate::domain::resources::{slug, slugify_process_name};
use crate::input::keys::{modifier_names, ModifierState};
use crate::domain::integration::{params_view, BoardType, BoardTypeView, ChainParams};
use crate::settings::persistence::{boards_view, padsets_view};
use crate::settings::settings::{
    keeps_boards, keeps_options, keeps_padsets, keeps_schemes, keeps_styles, lemma_name_position, name_position,
    Settings,
};
use crate::settings::validation::{all_distinct, board_names, padset_names};
use crate::model::handle::{
    board_named, empty_padset, first_listing_from, first_referencing_from, ConvertToBoardChainUseCase,
    DeleteBoardUseCase,
};
use crate::settings::settings::find_name;
use crate::text::{concat, concat3, join, owned};

verus! {

/// The names of the pad sets a board uses: its base pad set, then its modifier
/// pad sets in order.
pub open spec fn board_padsets(b: BoardV) -> Seq<Seq<char>> {
    (match b.base_pads {
        Some(n) => seq![n],
        None => Seq::empty(),
    }) + b.modifier_pads.map_values(|p: (Seq<char>, Seq<char>)| p.1)
}

/// The pad sets after removing, one name after the other, the first pad set of
/// each name; it stops at the first name that no pad set has, and gives it.
pub open spec fn remove_padsets(ps: Seq<PadSetV>, names: Seq<Seq<char>>) -> (Seq<PadSetV>, Option<Seq<char>>)
    decreases names.len(),
{
    if names.len() == 0 {
        (ps, None)
    } else {
        match name_position(padset_names(ps), names[0]) {
            None => (ps, Some(names[0])),
            Some(k) => remove_padsets(ps.remove(k), names.drop_first()),
        }
    }
}

/// The message for a missing pad set.
pub open spec fn padset_missing(name: Seq<char>) -> Seq<char> {
    "PadSet '"@ + name + "' not found"@
}

/// Deletes the pad sets of the given names one after the other, stopping at the
/// first that is missing.
fn delete_padsets(settings: &mut Settings, names: &Vec<String>) -> (r: Result<(), String>)
    ensures
        keeps_options(old(settings), final(settings)),
        keeps_schemes(old(settings), final(settings)),
        keeps_styles(old(settings), final(settings)),
        keeps_boards(old(settings), final(settings)),
        final(settings).padsets_v() == remove_padsets(old(settings).padsets_v(), strs_view(names@)).0,
        match remove_padsets(old(settings).padsets_v(), strs_view(names@)).1 {
            None => r is Ok,
            Some(n) => r matches Err(e) && e@ == padset_missing(n),
        },
        old(settings).data_spec().names_unique_error() is None
            ==> final(settings).data_spec().names_unique_error() is None,
{
    let ghost all = strs_view(names@);
    let ghost goal = remove_padsets(old(settings).padsets_v(), all);
    let mut i: usize = 0;
    assert(all.skip(0) =~= all);
    while i < names.len()
        invariant
            i <= names@.len(),
            all == strs_view(names@),
            goal == remove_padsets(old(settings).padsets_v(), all),
            goal == remove_padsets(settings.padsets_v(), all.skip(i as int)),
            keeps_options(old(settings), settings),
            keeps_schemes(old(settings), settings),
            keeps_styles(old(settings), settings),
            keeps_boards(old(settings), settings),
            old(settings).data_spec().names_unique_error() is None
                ==> settings.data_spec().names_unique_error() is None,
        decreases names.len() - i,
    {
        let ghost before = *settings;
        assert(all.skip(i as int)[0] == names@[i as int]@);
        assert(all.skip(i as int).drop_first() =~= all.skip(i + 1));
        match settings.delete_padset(names[i].as_str()) {
            Ok(_) => {
                let ghost k = name_position(padset_names(before.padsets_v()), names@[i as int]@)->0;
                let ghost raw0 = before.data_spec().padsets@;
                proof {
                    lemma_name_position(padset_names(before.padsets_v()), names@[i as int]@);
                }
                assert(settings.data_spec().padsets@ == raw0.remove(k));
                assert(padsets_view(raw0.remove(k)) =~= padsets_view(raw0).remove(k));
            },
            Err(e) => {
                return Err(e);
            },
        }
        i = i + 1;
    }
    assert(all.skip(names@.len() as int) =~= Seq::<Seq<char>>::empty());
    Ok(())
}

/// The names of the pad sets a board uses.
fn padsets_of(board: &Board) -> (r: Vec<String>)
    ensures
        strs_view(r@) == board_padsets(board@),
{
    let mut out: Vec<String> = Vec::new();
    match &board.base_pads {
        Some(n) => out.push(n.clone()),
        None => {},
    }
    let ghost head = strs_view(out@);
    let mut j: usize = 0;
    while j < board.modifier_pads.len()
        invariant
            j <= board.modifier_pads@.len(),
            head == (match board@.base_pads {
                Some(n) => seq![n],
                None => Seq::<Seq<char>>::empty(),
            }),
            strs_view(out@) == head + board@.modifier_pads.take(j as int).map_values(
                |p: (Seq<char>, Seq<char>)| p.1,
            ),
        decreases board.modifier_pads.len() - j,
    {
        let ghost prev = strs_view(out@);
        out.push(board.modifier_pads[j].1.clone());
        assert(board@.modifier_pads[j as int] == (board.modifier_pads@[j as int].0@, board.modifier_pads@[j as int].1@));
        assert(board@.modifier_pads.take(j + 1).map_values(|p: (Seq<char>, Seq<char>)| p.1) =~= board@.modifier_pads.take(
            j as int,
        ).map_values(|p: (Seq<char>, Seq<char>)| p.1).push(board.modifier_pads@[j as int].1@));
        assert(strs_view(out@) =~= prev.push(board.modifier_pads@[j as int].1@));
        j = j + 1;
    }
    assert(board@.modifier_pads.take(board.modifier_pads@.len() as int) =~= board@.modifier_pads);
    out
}

/// What deleting the board `name` does: the board goes, then its pad sets go one
/// after the other, stopping with an error at the first that is missing; with
/// no such board it fails and changes nothing. The rest stays.
pub open spec fn board_deleted(old: &Settings, new: &Settings, name: Seq<char>, r: Result<(), String>) -> bool {
    &&& keeps_options(old, new)
    &&& keeps_schemes(old, new)
    &&& keeps_styles(old, new)
    &&& match board_named(old, name) {
        None => r matches Err(e) && e@ == "Board '"@ + name + "' not found"@ && *new == *old,
        Some(b) => {
            &&& new.boards_v() == old.boards_v().remove(name_position(board_names(old.boards_v()), name)->0)
            &&& new.padsets_v() == remove_padsets(old.padsets_v(), board_padsets(b)).0
            &&& match remove_padsets(old.padsets_v(), board_padsets(b)).1 {
                None => r is Ok,
                Some(n) => r matches Err(e) && e@ == padset_missing(n),
            }
        },
    }
    &&& old.data_spec().names_unique_error() is None ==> new.data_spec().names_unique_error() is None
}

/// Deletes a board and the pad sets it uses: the board goes, then its base pad
/// set and its modifier pad sets in order, stopping with an error at the first
/// that is missing. Fails, changing nothing, when there is no such board.
pub fn delete_board(settings: &mut Settings, board_name: &str) -> (r: Result<(), String>)
    ensures
        board_deleted(old(settings), final(settings), board_name@, r),
{
    proof {
        lemma_name_position(board_names(settings.boards_v()), board_name@);
    }
    let board = match settings.get_board(board_name) {
        Ok(b) => b,
        Err(e) => return Err(e),
    };
    let ghost s0 = *settings;
    let ghost k = name_position(board_names(s0.boards_v()), board_name@)->0;
    assert(board.name@ == board_name@) by {
        assert(board_names(s0.boards_v())[k] == s0.boards_v()[k].name);
    }
    match settings.delete_board(board.name.as_str()) {
        Ok(_) => {},
        Err(e) => return Err(e),
    }
    assert(settings.boards_v() =~= s0.boards_v().remove(k));
    let names = padsets_of(&board);
    delete_padsets(settings, &names)
}


/// The modifier texts of a board's modifier pad sets, in order.
pub open spec fn modifier_keys(mp: Seq<(Seq<char>, Seq<char>)>) -> Seq<Seq<char>> {
    mp.map_values(|p: (Seq<char>, Seq<char>)| p.0)
}

/// The name of the pad set a board gets for a modifier text: the board's name,
/// a slash, and the text made a slug.
pub open spec fn modifier_padset_name(board_name: Seq<char>, modifier: Seq<char>) -> Seq<char> {
    board_name + "/"@ + slug(modifier)
}

/// The modifier texts of a board's modifier pad sets.
fn keys_of(board: &Board) -> (r: Vec<String>)
    ensures
        strs_view(r@) == modifier_keys(board@.modifier_pads),
{
    let mut out: Vec<String> = Vec::new();
    let mut j: usize = 0;
    while j < board.modifier_pads.len()
        invariant
            j <= board.modifier_pads@.len(),
            out@.len() == j,
            forall|q: int| 0 <= q < j ==> #[trigger] out@[q]@ == board.modifier_pads@[q].0@,
        decreases board.modifier_pads.len() - j,
    {
        out.push(board.modifier_pads[j].0.clone());
        j = j + 1;
    }
    assert(strs_view(out@) =~= modifier_keys(board@.modifier_pads));
    out
}

/// Adds an empty modifier pad set to a board for the given modifiers, and gives
/// it back: its name is the board's name, a slash and the slug of the modifier
/// text (such as "Ctrl+Shift"). Fails, changing nothing, when there is no such
/// board, when the board has a pad set for that modifier text already, or when a
/// pad set of the new name exists.
pub fn create_modifier_pad_set(settings: &mut Settings, board_name: &str, modifier: ModifierState) -> (r: Result<
    PadSet,
    String,
>)
    ensures
        keeps_options(old(settings), final(settings)),
        keeps_schemes(old(settings), final(settings)),
        keeps_styles(old(settings), final(settings)),
        ({
            let m = join(modifier_names(modifier), "+"@);
            let pname = modifier_padset_name(board_name@, m);
            match board_named(old(settings), board_name@) {
                None => r matches Err(e) && e@ == "Board '"@ + board_name@ + "' not found"@ && *final(settings)
                    == *old(settings),
                Some(b) => if modifier_keys(b.modifier_pads).contains(m) {
                    r matches Err(e) && e@ == "This modifier pad set already exists for the board"@ && *final(settings) == *old(settings)
                } else if padset_names(old(settings).padsets_v()).contains(pname) {
                    r matches Err(e) && e@ == "PadSet '"@ + pname + "' already exists"@ && *final(settings)
                        == *old(settings)
                } else {
                    &&& r matches Ok(ps) && ps@ == empty_padset(pname)
                    &&& final(settings).padsets_v() == old(settings).padsets_v().push(empty_padset(pname))
                    &&& final(settings).boards_v() == old(settings).boards_v().update(
                        name_position(board_names(old(settings).boards_v()), board_name@)->0,
                        BoardV { modifier_pads: b.modifier_pads.push((m, pname)), ..b },
                    )
                },
            }
        }),
        old(settings).data_spec().names_unique_error() is None
            ==> final(settings).data_spec().names_unique_error() is None,
{
    proof {
        lemma_name_position(board_names(settings.boards_v()), board_name@);
        reveal_strlit("/");
    }
    let mut board = match settings.get_board(board_name) {
        Ok(b) => b,
        Err(e) => return Err(e),
    };
    let ghost s0 = *settings;
    let ghost b0 = board@;
    let ghost k = name_position(board_names(s0.boards_v()), board_name@)->0;
    assert(board.name@ == board_name@) by {
        assert(board_names(s0.boards_v())[k] == s0.boards_v()[k].name);
    }
    let m = modifier.to_string();
    let keys = keys_of(&board);
    proof {
        lemma_name_position(modifier_keys(b0.modifier_pads), m@);
    }
    if find_name(&keys, m.as_str()).is_some() {
        return Err(owned("This modifier pad set already exists for the board"));
    }
    let slugged = slugify_process_name(m.as_str());
    let padset_name = concat3(board_name, "/", slugged.as_str());
    let no_pads: Vec<crate::domain::data::Pad> = Vec::new();
    assert(pads_view(no_pads@) =~= Seq::<crate::domain::data::PadV>::empty());
    let padset = PadSet::new(padset_name.as_str(), no_pads);
    board.modifier_pads.push((m, padset_name.clone()));
    assert(board@.modifier_pads =~= b0.modifier_pads.push((m@, padset_name@)));
    match settings.add_padset(padset) {
        Ok(_) => {},
        Err(e) => return Err(e),
    }
    let ghost raw0 = s0.data_spec().padsets@;
    assert(padsets_view(raw0.push(padset)) =~= padsets_view(raw0).push(padset@));
    assert(settings.padsets_v() == s0.padsets_v().push(empty_padset(padset_name@)));
    match settings.set_board(board) {
        Ok(_) => {},
        Err(e) => return Err(e),
    }
    proof {
        let ns = padset_names(settings.padsets_v());
        assert(ns =~= padset_names(s0.padsets_v()).push(padset_name@));
        assert(ns[ns.len() - 1] == padset_name@);
        lemma_name_position(ns, padset_name@);
        let q = name_position(ns, padset_name@)->0;
        if q < padset_names(s0.padsets_v()).len() {
            assert(ns[q] == padset_names(s0.padsets_v())[q]);
            assert(padset_names(s0.padsets_v()).contains(padset_name@));
        }
        assert(q == padset_names(s0.padsets_v()).len());
    }
    settings.get_padset(padset_name.as_str())
}

/// Removes a board's modifier pad set for the given modifier text, and deletes
/// that pad set. Fails when there is no such board or the board has no pad set
/// for that text, or when the pad set it names is missing; these change nothing.
pub fn delete_modifier_pad_set(settings: &mut Settings, board_name: &str, modifier: &str) -> (r: Result<(), String>)
    ensures
        keeps_options(old(settings), final(settings)),
        keeps_schemes(old(settings), final(settings)),
        keeps_styles(old(settings), final(settings)),
        match board_named(old(settings), board_name@) {
            None => r matches Err(e) && e@ == "Board '"@ + board_name@ + "' not found"@ && *final(settings) == *old(settings),
            Some(b) => match name_position(modifier_keys(b.modifier_pads), modifier@) {
                None => r matches Err(e) && e@ == "This modifier pad set does not exist for the board"@
                    && *final(settings) == *old(settings),
                Some(j) => match name_position(padset_names(old(settings).padsets_v()), b.modifier_pads[j].1) {
                    None => r matches Err(e) && e@ == padset_missing(b.modifier_pads[j].1) && *final(settings)
                        == *old(settings),
                    Some(q) => {
                        &&& r is Ok
                        &&& final(settings).padsets_v() == old(settings).padsets_v().remove(q)
                        &&& final(settings).boards_v() == old(settings).boards_v().update(
                            name_position(board_names(old(settings).boards_v()), board_name@)->0,
                            BoardV { modifier_pads: b.modifier_pads.remove(j), ..b },
                        )
                    },
                },
            },
        },
        old(settings).data_spec().names_unique_error() is None
            ==> final(settings).data_spec().names_unique_error() is None,
{
    proof {
        lemma_name_position(board_names(settings.boards_v()), board_name@);
    }
    let mut board = match settings.get_board(board_name) {
        Ok(b) => b,
        Err(e) => return Err(e),
    };
    let ghost s0 = *settings;
    let ghost b0 = board@;
    let ghost k = name_position(board_names(s0.boards_v()), board_name@)->0;
    assert(board.name@ == board_name@) by {
        assert(board_names(s0.boards_v())[k] == s0.boards_v()[k].name);
    }
    let keys = keys_of(&board);
    proof {
        lemma_name_position(modifier_keys(b0.modifier_pads), modifier@);
    }
    match find_name(&keys, modifier) {
        None => Err(owned("This modifier pad set does not exist for the board")),
        Some(j) => {
            let pair = board.modifier_pads.remove(j);
            assert(board@.modifier_pads =~= b0.modifier_pads.remove(j as int));
            assert(pair.1@ == b0.modifier_pads[j as int].1);
            proof {
                lemma_name_position(padset_names(s0.padsets_v()), pair.1@);
            }
            match settings.delete_padset(pair.1.as_str()) {
                Ok(_) => {},
                Err(e) => return Err(e),
            }
            proof {
                let q = name_position(padset_names(s0.padsets_v()), pair.1@)->0;
                let raw0 = s0.data_spec().padsets@;
                assert(padsets_view(raw0.remove(q)) =~= padsets_view(raw0).remove(q));
            }
            match settings.set_board(board) {
                Ok(_) => Ok(()),
                Err(e) => Err(e),
            }
        },
    }
}


/// The board left behind when a board becomes a chain: renamed to `stub`, and
/// no longer detected.
pub open spec fn stub_board(b: BoardV, stub: Seq<char>) -> BoardV {
    BoardV { name: stub, detection: DetectionV::NoMatch, ..b }
}

/// The chain a board becomes: a chain over the boards `boards`, starting on
/// `initial`, without pad sets or styling of its own.
pub open spec fn chain_board(b: BoardV, name: Seq<char>, boards: Seq<char>, initial: Option<Seq<char>>) -> BoardV {
    BoardV {
        board_type: BoardTypeView::Chain(boards, initial, Seq::empty()),
        name: name,
        base_pads: None,
        modifier_pads: Seq::empty(),
        text_style: None,
        color_scheme: None,
        ..b
    }
}

/// What making the board `name` a chain does: see `convert_to_board_chain`.
pub open spec fn converted_to_chain(old: &Settings, new: &Settings, name: Seq<char>, r: Result<(), String>) -> bool {
    &&& keeps_options(old, new)
    &&& keeps_schemes(old, new)
    &&& keeps_styles(old, new)
    &&& keeps_padsets(old, new)
    &&& ({
            let stub = name + "/stub"@;
            match board_named(old, name) {
                None => r matches Err(e) && e@ == "Board '"@ + name + "' not found"@ && *new
                    == *old,
                Some(b) => if b.board_type !is Static {
                    r matches Err(e) && e@ == "Only Static boards can be converted to BoardChain"@ && *new
                        == *old
                } else if board_names(old.boards_v()).contains(stub) {
                    r matches Err(e) && e@ == "Board '"@ + stub + "' already exists"@ && *new
                        == *old
                } else {
                    let k = name_position(board_names(old.boards_v()), name)->0;
                    let renamed = old.boards_v().update(k, stub_board(b, stub));
                    if board_names(renamed).contains(name) {
                        r matches Err(e) && e@ == "Board '"@ + name + "' already exists"@
                            && new.boards_v() == renamed
                    } else {
                        r is Ok && new.boards_v() == renamed.insert(
                            k,
                            chain_board(b, name, stub, None),
                        )
                    }
                },
            }
        })
    &&& old.data_spec().names_unique_error() is None ==> new.data_spec().names_unique_error() is None
}

/// Makes a static board a chain of one board: the board is renamed with
/// "/stub" appended and is no longer detected, and a chain of the board's old
/// name, listing the renamed board, takes its place (keeping its title, icon and
/// detection). Fails, changing nothing, when there is no such board, when it is
/// not static, or when a board of the new name exists; fails after the renaming
/// when another board still has the old name.
pub fn convert_to_board_chain(settings: &mut Settings, board_name: &str) -> (r: Result<(), String>)
    ensures
        converted_to_chain(old(settings), final(settings), board_name@, r),
{
    proof {
        lemma_name_position(board_names(settings.boards_v()), board_name@);
        reveal_strlit("/stub");
    }
    let mut chained = match settings.get_board(board_name) {
        Ok(b) => b,
        Err(e) => return Err(e),
    };
    let ghost s0 = *settings;
    let ghost b0 = chained@;
    let ghost k = name_position(board_names(s0.boards_v()), board_name@)->0;
    assert(chained.name@ == board_name@) by {
        assert(board_names(s0.boards_v())[k] == s0.boards_v()[k].name);
    }
    match &chained.board_type {
        BoardType::Static => {},
        _ => return Err(owned("Only Static boards can be converted to BoardChain")),
    }
    let stub = concat(board_name, "/stub");
    match settings.rename_board(chained.name.as_str(), stub.as_str()) {
        Ok(_) => {},
        Err(e) => return Err(e),
    }
    let ghost s1 = *settings;
    proof {
        let ns = board_names(s1.boards_v());
        assert(ns =~= board_names(s0.boards_v()).update(k, stub@));
        lemma_name_position(ns, stub@);
        let q = name_position(ns, stub@)->0;
        assert(ns[k] == stub@);
        if q != k {
            assert(ns[q] == board_names(s0.boards_v())[q]);
            assert(board_names(s0.boards_v()).contains(stub@));
        }
    }
    let mut renamed = match settings.get_board(stub.as_str()) {
        Ok(b) => b,
        Err(e) => return Err(e),
    };
    renamed.detection = Detection::NoMatch;
    assert(renamed@ == stub_board(b0, stub@));
    let ghost raw1 = s1.data_spec().boards@;
    let ghost rv = renamed@;
    match settings.set_board(renamed) {
        Ok(_) => {},
        Err(e) => return Err(e),
    }
    proof {
        let ghost x = settings.data_spec().boards@;
        assert(boards_view(x) =~= boards_view(raw1).update(k, rv));
    }
    assert(settings.boards_v() =~= s0.boards_v().update(k, stub_board(b0, stub@)));
    chained.base_pads = None;
    chained.modifier_pads = Vec::new();
    chained.text_style = None;
    chained.color_scheme = None;
    chained.board_type = BoardType::Chain(ChainParams { boards: stub.clone(), initial_board: None, params: Vec::new() });
    proof {
        assert(pairs_view(chained.modifier_pads@) =~= Seq::<(Seq<char>, Seq<char>)>::empty());
        assert(params_view(Seq::<crate::domain::integration::Param>::empty()) =~= Seq::<(Seq<char>, Seq<char>)>::empty());
    }
    assert(chained@ == chain_board(b0, board_name@, stub@, None));
    let ghost s2 = *settings;
    let ghost ov = chained@;
    proof {
        let ns = board_names(settings.boards_v());
        assert(ns =~= board_names(s1.boards_v()));
        lemma_name_position(ns, stub@);
    }
    let res = settings.insert_board(stub.as_str(), chained);
    proof {
        if res is Ok {
            let raw2 = s2.data_spec().boards@;
            assert(boards_view(settings.data_spec().boards@) =~= boards_view(raw2).insert(k, ov));
        }
    }
    res
}

/// What making a new chain with the board `name` does: see
/// `create_new_chain_with_board`.
pub open spec fn chain_created(old: &Settings, new: &Settings, name: Seq<char>, r: Result<Board, String>) -> bool {
    let cname = name + "/chain"@;
    &&& keeps_options(old, new)
    &&& keeps_schemes(old, new)
    &&& keeps_styles(old, new)
    &&& keeps_padsets(old, new)
    &&& match board_named(old, name) {
        None => r matches Err(e) && e@ == "Board '"@ + name + "' not found"@ && *new == *old,
        Some(b) => if b.board_type !is Static {
            r matches Err(e) && e@ == "Only Static boards can be added to BoardChain"@ && *new == *old
        } else if board_names(old.boards_v()).contains(cname) {
            r matches Err(e) && e@ == "Board '"@ + cname + "' already exists"@ && *new == *old
        } else {
            let nb = BoardV { detection: DetectionV::NoMatch, ..chain_board(b, cname, name, Some(name)) };
            &&& r matches Ok(c) && c@ == nb
            &&& new.boards_v() == old.boards_v().insert(name_position(board_names(old.boards_v()), name)->0, nb)
        },
    }
    &&& old.data_spec().names_unique_error() is None ==> new.data_spec().names_unique_error() is None
}

/// Makes a new chain holding a static board: it is named after the board with
/// "/chain" appended, lists the board and starts on it, keeps the board's title,
/// icon and board kind's other settings but is not detected and has no pad sets
/// or styling of its own; it is put before the board and given back. Fails,
/// changing nothing, when there is no such board, when it is not static, or when
/// a board of the new name exists.
pub fn create_new_chain_with_board(settings: &mut Settings, board_name: &str) -> (r: Result<Board, String>)
    ensures
        chain_created(old(settings), final(settings), board_name@, r),
{
    proof {
        lemma_name_position(board_names(settings.boards_v()), board_name@);
        reveal_strlit("/chain");
    }
    let mut board = match settings.get_board(board_name) {
        Ok(b) => b,
        Err(e) => return Err(e),
    };
    let ghost s0 = *settings;
    let ghost b0 = board@;
    let ghost k = name_position(board_names(s0.boards_v()), board_name@)->0;
    match &board.board_type {
        BoardType::Static => {},
        _ => return Err(owned("Only Static boards can be added to BoardChain")),
    }
    let params = ChainParams { boards: owned(board_name), initial_board: Some(owned(board_name)), params: Vec::new() };
    board.detection = Detection::NoMatch;
    board.name = concat(board_name, "/chain");
    board.base_pads = None;
    board.modifier_pads = Vec::new();
    board.text_style = None;
    board.color_scheme = None;
    board.board_type = BoardType::Chain(params);
    proof {
        assert(pairs_view(board.modifier_pads@) =~= Seq::<(Seq<char>, Seq<char>)>::empty());
        assert(params_view(Seq::<crate::domain::integration::Param>::empty()) =~= Seq::<(Seq<char>, Seq<char>)>::empty());
    }
    let ghost nb = board@;
    let cname = board.name.clone();
    match settings.insert_board(board_name, board) {
        Ok(_) => {},
        Err(e) => return Err(e),
    }
    proof {
        assert(boards_view(settings.data_spec().boards@) =~= boards_view(s0.data_spec().boards@).insert(k, nb));
        let ns = board_names(settings.boards_v());
        assert(ns =~= board_names(s0.boards_v()).insert(k, cname@));
        assert(ns[k] == cname@);
        lemma_name_position(ns, cname@);
        let q = name_position(ns, cname@)->0;
        if q < k {
            assert(ns[q] == board_names(s0.boards_v())[q]);
            assert(board_names(s0.boards_v()).contains(cname@));
        }
    }
    settings.get_board(cname.as_str())
}


/// What deleting the board `name` after its checks does: it fails with the
/// first check's error, changing nothing, or deletes as `board_deleted` says.
pub open spec fn checked_deletion(old: &Settings, new: &Settings, name: Seq<char>, r: Result<(), String>) -> bool {
    if first_referencing_from(old, name, 0) is Some {
        r matches Err(e) && e@ == "Board\n\""@ + name + "\"\nis referenced by PadSet\n\""@ + first_referencing_from(
            old,
            name,
            0,
        )->0 + "\""@ && *new == *old
    } else if first_listing_from(old, name, 0) is Some {
        r matches Err(e) && e@ == "Board \""@ + name + "\"\nis listed in Collection\n\""@ + first_listing_from(
            old,
            name,
            0,
        )->0 + "\""@ && *new == *old
    } else {
        board_deleted(old, new, name, r)
    }
}

impl DeleteBoardUseCase {
    /// Deletes the board with its pad sets, when the checks of `validate` pass;
    /// otherwise fails with their error and changes nothing.
    pub fn delete(&self, settings: &mut Settings) -> (r: Result<(), String>)
        ensures
            checked_deletion(old(settings), final(settings), self.name_spec(), r),
    {
        match self.validate(settings) {
            Ok(_) => {},
            Err(e) => return Err(e),
        }
        delete_board(settings, self.board_name())
    }
}

impl ConvertToBoardChainUseCase {
    /// Makes the board a chain of one board, as `convert_to_board_chain` does.
    pub fn convert(&self, settings: &mut Settings) -> (r: Result<(), String>)
        ensures
            converted_to_chain(old(settings), final(settings), self.name_spec(), r),
    {
        convert_to_board_chain(settings, self.board_name())
    }
}


/// Adding a modifier pad set and removing it again leaves the boards and the pad
/// sets as they were: the new pair is the first of its modifier text and the
/// new pad set the first of its name, so removing them takes exactly these.
pub proof fn law_modifier_padset_undo(bs: Seq<BoardV>, ps: Seq<PadSetV>, k: int, m: Seq<char>, pname: Seq<char>)
    requires
        0 <= k < bs.len(),
        !modifier_keys(bs[k].modifier_pads).contains(m),
        !padset_names(ps).contains(pname),
    ensures
        ({
            let b1 = BoardV { modifier_pads: bs[k].modifier_pads.push((m, pname)), ..bs[k] };
            let ps1 = ps.push(empty_padset(pname));
            &&& name_position(modifier_keys(b1.modifier_pads), m) == Some(bs[k].modifier_pads.len() as int)
            &&& b1.modifier_pads[bs[k].modifier_pads.len() as int].1 == pname
            &&& name_position(padset_names(ps1), pname) == Some(ps.len() as int)
            &&& ps1.remove(ps.len() as int) == ps
            &&& bs.update(k, b1).update(
                k,
                BoardV { modifier_pads: b1.modifier_pads.remove(bs[k].modifier_pads.len() as int), ..b1 },
            ) == bs
        }),
{
    let b = bs[k];
    let b1 = BoardV { modifier_pads: b.modifier_pads.push((m, pname)), ..b };
    let ps1 = ps.push(empty_padset(pname));
    let keys = modifier_keys(b1.modifier_pads);
    assert(keys =~= modifier_keys(b.modifier_pads).push(m));
    assert(keys[keys.len() - 1] == m);
    lemma_name_position(keys, m);
    let q = name_position(keys, m)->0;
    if q < b.modifier_pads.len() {
        assert(keys[q] == modifier_keys(b.modifier_pads)[q]);
    }
    let names = padset_names(ps1);
    assert(names =~= padset_names(ps).push(pname));
    assert(names[names.len() - 1] == pname);
    lemma_name_position(names, pname);
    let j = name_position(names, pname)->0;
    if j < ps.len() {
        assert(names[j] == padset_names(ps)[j]);
    }
    assert(ps1.remove(ps.len() as int) =~= ps);
    assert(b1.modifier_pads.remove(b.modifier_pads.len() as int) =~= b.modifier_pads);
    assert(bs.update(k, b1).update(
        k,
        BoardV { modifier_pads: b1.modifier_pads.remove(b.modifier_pads.len() as int), ..b1 },
    ) =~= bs);
}

/// When board names are distinct, deleting a board leaves no board of that name.
pub proof fn law_deleted_board_is_gone(old: &Settings, new: &Settings, name: Seq<char>, r: Result<(), String>)
    requires
        all_distinct(board_names(old.boards_v())),
        board_named(old, name) is Some,
        board_deleted(old, new, name, r),
    ensures
        board_named(new, name) is None,
        !board_names(new.boards_v()).contains(name),
{
    let names = board_names(old.boards_v());
    lemma_name_position(names, name);
    let k = name_position(names, name)->0;
    let after = board_names(new.boards_v());
    assert(after =~= names.remove(k));
    if after.contains(name) {
        let j = choose|j: int| 0 <= j < after.len() && after[j] == name;
        if j < k {
            assert(names[j] == name);
        } else {
            assert(names[j + 1] == name);
        }
    }
    lemma_name_position(after, name);
}

} // verus!
