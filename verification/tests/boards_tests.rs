use hotkeys::components::board_list::{settings_action, SettingsAction};
use hotkeys::components::boards::{board_edit, edit_activation, BoardEdit};
use hotkeys::components::boards::{home_activation, window_title};
use hotkeys::components::pad_editor::PadEditor;
use hotkeys::domain::data::Pad;
use hotkeys::domain::integration::ActionType;
use hotkeys::components::board_list::{
    apply_chain_edit, chain_edit_input, create_request, create_sub_board, delete_request, list_key, BoardFilter,
    BoardList, CreateRequest, ListKind,
};
use hotkeys::components::boards::{
    create_prompt, handle_create_prompt, home_action, initial_edit_params, BoardChain, CreatePrompt, HomeAction,
    MainAction, MainBoardState,
};
use hotkeys::components::events::{KeyboardEvent, MouseEvent, MouseEventTarget, UiEvent, UiEventResult};
use hotkeys::components::state_machine::{BoardStack, StackCommand};
use hotkeys::domain::data::{Board, PadSet};
use hotkeys::domain::integration::{BoardType, ChainParams, Param};
use hotkeys::domain::resources::Resources;
use hotkeys::input::keys::ModifierState;
use hotkeys::model::data::PadId;
use hotkeys::model::handle::CreateDetectableBoardUseCase;
use hotkeys::settings::persistence::SettingsData;
use hotkeys::settings::settings::Settings;

fn key(k: u32) -> UiEvent {
    UiEvent::KeyDown(KeyboardEvent { key: k, modifiers: ModifierState::default() })
}

fn key_with(k: u32, m: ModifierState) -> UiEvent {
    UiEvent::KeyDown(KeyboardEvent { key: k, modifiers: m })
}

fn release(k: u32, m: ModifierState) -> UiEvent {
    UiEvent::KeyUp(KeyboardEvent { key: k, modifiers: m })
}

fn click(t: MouseEventTarget) -> UiEvent {
    UiEvent::RightMouseDown(MouseEvent { target: t, modifiers: ModifierState::default() })
}

fn board(name: &str) -> Board {
    let mut b = Board::default();
    b.name = name.to_string();
    b
}

fn settings_with(boards: Vec<Board>) -> Settings {
    let mut data = SettingsData::default();
    data.boards = boards;
    Settings::from_data(data, Resources::new(vec!["config".to_string()]))
}

#[test]
fn home_board_keys_and_clicks() {
    assert_eq!(home_action(key(0x64), false), HomeAction::Select(PadId::Four));
    assert_eq!(home_action(key(0x53), false), HomeAction::Select(PadId::Four));
    assert_eq!(home_action(key(0x65), false), HomeAction::StartTour);
    assert_eq!(home_action(key(0x54), false), HomeAction::StartTour);
    assert_eq!(home_action(key(0x66), false), HomeAction::Select(PadId::Six));
    assert_eq!(home_action(key(0x44), false), HomeAction::Select(PadId::Six));
    assert_eq!(home_action(key(0x61), false), HomeAction::NotHandled);
    assert_eq!(home_action(click(MouseEventTarget::Pad(PadId::Five)), false), HomeAction::StartTour);
    assert_eq!(home_action(click(MouseEventTarget::Pad(PadId::Four)), false), HomeAction::NotHandled);
    assert_eq!(home_action(release(0x53, ModifierState::default()), false), HomeAction::NotHandled);
}

#[test]
fn create_prompt_answers() {
    assert_eq!(create_prompt(key(0x0D)), CreatePrompt::Create);
    assert_eq!(create_prompt(key(0x59)), CreatePrompt::Create);
    assert_eq!(create_prompt(key(0x1B)), CreatePrompt::Cancel);
    assert_eq!(create_prompt(key(0x4E)), CreatePrompt::Cancel);
    assert_eq!(create_prompt(key(0x41)), CreatePrompt::NotHandled);
    assert_eq!(create_prompt(click(MouseEventTarget::Header)), CreatePrompt::Ignore);
    let mut s = settings_with(vec![board("home")]);
    let uc = CreateDetectableBoardUseCase::new("Code.exe".to_string(), None, None);
    assert_eq!(handle_create_prompt(&uc, &mut s, key(0x0D)), UiEventResult::PadSelected(PadId::Five));
    assert!(s.get_board("code").is_ok());
    assert_eq!(handle_create_prompt(&uc, &mut s, key(0x0D)), UiEventResult::NotHandled);
    assert_eq!(handle_create_prompt(&uc, &mut s, key(0x1B)), UiEventResult::PopState);
}

#[test]
fn main_board_keys() {
    let ctrl = ModifierState { ctrl: true, shift: false, alt: false, super_key: false };
    let mut m = MainBoardState::new();
    assert_eq!(m.handle_ui_event(key_with(0x41, ctrl), false), MainAction::Reply(UiEventResult::NotHandled));
    assert_eq!(m.modifier(), ctrl);
    assert_eq!(m.handle_ui_event(release(0x11, ModifierState::default()), false), MainAction::Reply(UiEventResult::RequiresRedraw));
    assert_eq!(m.modifier(), ModifierState::default());
    assert_eq!(m.handle_ui_event(release(0x11, ModifierState::default()), false), MainAction::Reply(UiEventResult::NotHandled));
    assert_eq!(m.handle_ui_event(key_with(0x45, ctrl), false), MainAction::EditBoard);
    assert_eq!(m.modifier(), ModifierState::default());
    assert_eq!(m.handle_ui_event(key(0x53), false), MainAction::OpenSettings);
    assert_eq!(m.handle_ui_event(key(0x58), false), MainAction::WindowLayout);
    assert_eq!(m.handle_ui_event(key(0x57), true), MainAction::SaveChanges);
    assert_eq!(m.handle_ui_event(key(0x57), false), MainAction::Reply(UiEventResult::NotHandled));
    assert_eq!(m.handle_ui_event(click(MouseEventTarget::Header), false), MainAction::EditBoard);
    assert_eq!(m.saved(true), UiEventResult::RequiresRedraw);
    assert_eq!(m.saved(false), UiEventResult::NotHandled);
}

#[test]
fn initial_path_opens_edit_mode() {
    let params = vec![
        Param { name: "x".to_string(), value: "1".to_string() },
        Param { name: "initial_path".to_string(), value: "edit/pads".to_string() },
    ];
    let merged = initial_edit_params(&params).unwrap();
    assert_eq!(merged.len(), 2);
    assert_eq!(merged[1].name, "initial_path");
    assert_eq!(merged[1].value, "pads");
    let other = vec![Param { name: "initial_path".to_string(), value: "view".to_string() }];
    assert!(initial_edit_params(&other).is_none());
    assert!(initial_edit_params(&vec![]).is_none());
}

#[test]
fn chain_pages_left_and_right() {
    let boards = vec!["a".to_string(), "b".to_string(), "c".to_string()];
    let mut chain = BoardChain::new(boards.clone(), Some("b".to_string()));
    assert_eq!(chain.current(), "b");
    assert_eq!(chain.page_string(), "2/3");
    assert_eq!(chain.handle_ui_event(key(0x27), false), MainAction::Reply(UiEventResult::RequiresRedraw));
    assert_eq!(chain.current(), "c");
    chain.move_next();
    assert_eq!(chain.current(), "a");
    assert_eq!(chain.page_string(), "1/3");
    chain.move_previous();
    assert_eq!(chain.current(), "c");
    assert_eq!(chain.handle_ui_event(key(0x45), false), MainAction::EditBoard);
    let start = BoardChain::new(boards, Some("zzz".to_string()));
    assert_eq!(start.current(), "a");
}

#[test]
fn chain_wraps_around_after_all_boards() {
    let boards: Vec<String> = (1..=12).map(|i| format!("b{}", i)).collect();
    let mut chain = BoardChain::new(boards, None);
    assert_eq!(chain.page_string(), "1/12");
    for _ in 0..12 {
        chain.move_next();
    }
    assert_eq!(chain.current(), "b1");
    chain.move_previous();
    assert_eq!(chain.page_string(), "12/12");
}

#[test]
fn board_stack_push_pop_replace() {
    let mut st = BoardStack::new(1u32);
    assert_eq!(st.stack_depth(), 1);
    assert_eq!(st.process_state_result(StackCommand::Pop), (UiEventResult::RequiresRedraw, None));
    assert_eq!(st.stack_depth(), 1);
    assert_eq!(st.process_state_result(StackCommand::Push(2)), (UiEventResult::RequiresRedraw, None));
    assert_eq!(*st.current_board(), 2);
    assert_eq!(st.process_state_result(StackCommand::Replace(3)), (UiEventResult::RequiresRedraw, None));
    assert_eq!(*st.current_board(), 3);
    assert_eq!(st.process_state_result(StackCommand::Pass(UiEventResult::Handled)), (UiEventResult::Handled, None));
    assert_eq!(st.process_state_result(StackCommand::Pop), (UiEventResult::RequiresRedraw, Some(3)));
    assert_eq!(*st.current_board(), 1);
}

#[test]
fn board_list_pages_and_entries() {
    let mut bs: Vec<Board> = (1..=13).map(|i| board(&format!("b{}", i))).collect();
    let mut home = board("home");
    home.board_type = BoardType::Home;
    bs.push(home);
    let mut child = board("b1/sub");
    child.title = Some("Sub".to_string());
    bs.push(child);
    let mut s = settings_with(bs);
    s.set_board({
        let mut p = board("b1");
        p.title = Some("Parent".to_string());
        p
    })
    .unwrap();
    let mut list = BoardList::new(BoardFilter::NotHome);
    assert_eq!(list.boards(&s).len(), 14);
    assert_eq!(list.max_page(&s), 2);
    let entries = list.page_entries(&s);
    assert_eq!(entries.len(), 9);
    assert_eq!(entries[0].pad, PadId::Seven);
    assert_eq!(entries[0].title, "Parent");
    assert_eq!(entries[0].marks, "📋");
    assert_eq!(entries[8].pad, PadId::Three);
    assert_eq!(list.handle_ui_event(&s, key(0x26)), UiEventResult::NotHandled);
    assert_eq!(list.handle_ui_event(&s, key(0x28)), UiEventResult::RequiresRedraw);
    assert_eq!(list.handle_ui_event(&s, key(0x28)), UiEventResult::RequiresRedraw);
    assert_eq!(list.handle_ui_event(&s, key(0x28)), UiEventResult::NotHandled);
    assert_eq!(list.current_page(), 2);
    let last = list.page_entries(&s);
    assert_eq!(last.len(), 8);
    assert_eq!(last[7].board, "b1/sub");
    assert_eq!(last[7].header, "Parent");
    assert_eq!(list.handle_ui_event(&s, key(0x67)), UiEventResult::PadSelected(PadId::Seven));
    assert_eq!(list.handle_ui_event(&s, key(0x1B)), UiEventResult::PopState);
    assert_eq!(list.board_at(&s, PadId::Seven), Some("b7".to_string()));
    assert_eq!(list.board_at(&s, PadId::Three), None);
    assert_eq!(
        delete_request(&list, &s, PadId::Seven),
        Some(("b7".to_string(), "Delete board\n\"b7\"?".to_string()))
    );
    list.move_to_end(&s);
    assert_eq!(list.current_page(), 2);
}

#[test]
fn list_keys_and_create_requests() {
    assert_eq!(list_key(key(0xBD)), Some(ListKind::Delete));
    assert_eq!(list_key(key(0x6B)), Some(ListKind::Create));
    assert_eq!(list_key(key(0x43)), Some(ListKind::Chains));
    assert_eq!(list_key(key(0x4D)), Some(ListKind::Convert));
    assert_eq!(list_key(key(0x41)), None);
    let mut s = settings_with(vec![board("code")]);
    s.add_padset(PadSet::new("other", vec![])).unwrap();
    let mut list = BoardList::new(BoardFilter::StaticOnly);
    assert_eq!(create_request(&list, &s, PadId::Seven, false), Some(CreateRequest::NewSubBoard("code".to_string())));
    assert_eq!(
        create_request(&list, &s, PadId::Seven, true),
        Some(CreateRequest::NewCollection("code".to_string(), "Create new Collection with board\n\"code\"".to_string()))
    );
    assert_eq!(create_request(&list, &s, PadId::Eight, true), None);
    assert!(create_sub_board(&mut list, &mut s, "code".to_string(), String::new()).is_none());
    let made = create_sub_board(&mut list, &mut s, "code".to_string(), "My Tool".to_string()).unwrap().unwrap();
    assert_eq!(made.name, "code/my_tool");
}

#[test]
fn chain_editing_sets_boards_and_start() {
    let mut chain = board("coll");
    chain.board_type = BoardType::Chain(ChainParams {
        boards: "a, b".to_string(),
        initial_board: None,
        params: vec![Param { name: "k".to_string(), value: "v".to_string() }],
    });
    let mut s = settings_with(vec![board("a"), board("b"), chain]);
    let (bs, ini, others) = chain_edit_input(&s, "coll").unwrap();
    assert_eq!(bs, vec!["a".to_string(), "b".to_string()]);
    assert_eq!(ini, None);
    assert_eq!(others, vec!["a".to_string(), "b".to_string()]);
    assert_eq!(chain_edit_input(&s, "a").map(|_| ()), Err("Selected board is not a Collection board".to_string()));
    assert_eq!(chain_edit_input(&s, "x").map(|_| ()), Err("No valid Collection board selected".to_string()));
    assert_eq!(apply_chain_edit(&mut s, "coll", &vec!["b".to_string(), "a".to_string()], "a".to_string()), Ok(()));
    match s.get_board("coll").unwrap().board_type {
        BoardType::Chain(p) => {
            assert_eq!(p.boards, "b,a");
            assert_eq!(p.initial_board, Some("a".to_string()));
            assert_eq!(p.params.len(), 1);
        },
        _ => panic!("not a chain"),
    }
}

#[test]
fn board_edit_keys_clicks_and_initial_path() {
    let shift = ModifierState { ctrl: false, shift: true, alt: false, super_key: false };
    assert_eq!(board_edit(key(0x71)), BoardEdit::Title);
    assert_eq!(board_edit(key(0x43)), BoardEdit::ColorSchemes);
    assert_eq!(board_edit(key(0x46)), BoardEdit::TextStyles);
    assert_eq!(board_edit(key(0x54)), BoardEdit::TextStyles);
    assert_eq!(board_edit(key_with(0x63, shift)), BoardEdit::Pad(PadId::Three, shift));
    assert_eq!(board_edit(key(0x41)), BoardEdit::NotHandled);
    assert_eq!(board_edit(click(MouseEventTarget::Header)), BoardEdit::Title);
    assert_eq!(board_edit(click(MouseEventTarget::Pad(PadId::Two))), BoardEdit::Pad(PadId::Two, ModifierState::default()));
    let p = |v: &str| vec![Param { name: "initial_path".to_string(), value: v.to_string() }];
    assert_eq!(edit_activation(&p("title")), BoardEdit::Title);
    assert_eq!(edit_activation(&p("colors/x")), BoardEdit::ColorSchemes);
    assert_eq!(edit_activation(&p("fonts")), BoardEdit::TextStyles);
    assert_eq!(edit_activation(&p("pad7")), BoardEdit::Pad(PadId::Seven, ModifierState::default()));
    assert_eq!(edit_activation(&p("pad0")), BoardEdit::NotHandled);
    assert_eq!(edit_activation(&p("padx")), BoardEdit::NotHandled);
    assert_eq!(edit_activation(&p("other")), BoardEdit::NotHandled);
    assert_eq!(edit_activation(&vec![]), BoardEdit::NotHandled);
}

#[test]
fn home_activation_offers_a_board_for_the_process() {
    let both = vec![
        Param { name: "process_name".to_string(), value: "code.exe".to_string() },
        Param { name: "window_title".to_string(), value: "Editor".to_string() },
    ];
    assert_eq!(home_activation(&both), Some(("code.exe".to_string(), "Editor".to_string())));
    let only = vec![Param { name: "process_name".to_string(), value: "code.exe".to_string() }];
    assert_eq!(home_activation(&only), Some(("code.exe".to_string(), "code.exe".to_string())));
    assert_eq!(home_activation(&vec![]), None);
    assert_eq!(window_title(&vec![]), "New board");
}

#[test]
fn captured_shortcut_becomes_the_first_action() {
    let mut ed = PadEditor::new(Pad::default());
    assert_eq!(ed.title(), "Pad text");
    ed.set_first_action_shortcut("   ");
    assert!(ed.pad.actions.is_empty());
    ed.set_first_action_shortcut(" ctrl+c ");
    assert_eq!(ed.pad.header, Some("ctrl+c".to_string()));
    match &ed.pad.actions[..] {
        [ActionType::Shortcut(s)] => assert_eq!(s, "ctrl+c"),
        _ => panic!("expected one shortcut"),
    }
}

#[test]
fn unhandled_escape_closes_all_but_the_last_board() {
    let mut st = BoardStack::new("root");
    assert_eq!(st.main_key_down(0x1B), (UiEventResult::NotHandled, None));
    st.process_state_result(StackCommand::Push("child"));
    assert_eq!(st.main_key_down(0x41), (UiEventResult::NotHandled, None));
    assert_eq!(st.main_key_down(0x0D), (UiEventResult::RequiresRedraw, Some("child")));
    assert_eq!(st.stack_depth(), 1);
}

#[test]
fn settings_board_keys_and_clicks() {
    assert_eq!(settings_action(key(0x62), false), SettingsAction::Move);
    assert_eq!(settings_action(key(0x4D), false), SettingsAction::Move);
    assert_eq!(settings_action(key(0x5A), false), SettingsAction::Resize);
    assert_eq!(settings_action(key(0x65), false), SettingsAction::Reload);
    assert_eq!(settings_action(key(0x53), false), SettingsAction::Save);
    assert_eq!(settings_action(key(0x42), false), SettingsAction::Boards);
    assert_eq!(settings_action(key(0x68), false), SettingsAction::ColorSchemes);
    assert_eq!(settings_action(key(0x54), false), SettingsAction::TextStyles);
    assert_eq!(settings_action(key(0x61), false), SettingsAction::NotHandled);
    // with the natural order the digit 1 stands for pad 7
    assert_eq!(settings_action(key(0x31), true), SettingsAction::Boards);
    assert_eq!(settings_action(click(MouseEventTarget::Pad(PadId::Nine)), false), SettingsAction::TextStyles);
    assert_eq!(settings_action(click(MouseEventTarget::Header), false), SettingsAction::NotHandled);
}
