use hotkeys::domain::data::{Board, Detection, PadSet};
use hotkeys::domain::integration::{BoardType, ChainParams};
use hotkeys::domain::resources::Resources;
use hotkeys::input::keys::ModifierState;
use hotkeys::model::board_ops::{
    convert_to_board_chain, create_modifier_pad_set, create_new_chain_with_board, delete_board,
    delete_modifier_pad_set,
};
use hotkeys::model::handle::{ConvertToBoardChainUseCase, DeleteBoardUseCase};
use hotkeys::settings::persistence::SettingsData;
use hotkeys::settings::settings::Settings;

fn board(name: &str) -> Board {
    let mut b = Board::default();
    b.name = name.to_string();
    b
}

fn settings_with(boards: Vec<Board>, padsets: Vec<&str>) -> Settings {
    let mut data = SettingsData::default();
    data.boards = boards;
    data.padsets = padsets.into_iter().map(|n| PadSet::new(n, vec![])).collect();
    Settings::from_data(data, Resources::new(vec!["config".to_string()]))
}

fn names(s: &Settings) -> Vec<String> {
    s.boards()
}

#[test]
fn delete_board_removes_board_and_its_padsets() {
    let mut b = board("code");
    b.base_pads = Some("code".to_string());
    b.modifier_pads = vec![("Ctrl".to_string(), "code/ctrl".to_string())];
    let mut s = settings_with(vec![board("home"), b], vec!["home", "code", "code/ctrl"]);
    assert_eq!(delete_board(&mut s, "code"), Ok(()));
    assert_eq!(names(&s), vec!["home".to_string()]);
    assert_eq!(s.padsets(), vec!["home".to_string()]);
    assert!(s.is_dirty());
}

#[test]
fn delete_board_reports_missing_board_and_padset() {
    let mut s = settings_with(vec![board("home")], vec![]);
    assert_eq!(delete_board(&mut s, "nope"), Err("Board 'nope' not found".to_string()));
    assert!(!s.is_dirty());
    let mut b = board("code");
    b.base_pads = Some("gone".to_string());
    let mut s = settings_with(vec![b], vec![]);
    assert_eq!(delete_board(&mut s, "code"), Err("PadSet 'gone' not found".to_string()));
    assert!(s.boards().is_empty());
}

#[test]
fn delete_use_case_checks_references_first() {
    let mut chain = board("coll");
    chain.board_type = BoardType::Chain(ChainParams { boards: "code".to_string(), initial_board: None, params: vec![] });
    let mut s = settings_with(vec![board("code"), chain], vec![]);
    let uc = DeleteBoardUseCase::new("code".to_string());
    assert_eq!(uc.delete(&mut s), Err("Board \"code\"\nis listed in Collection\n\"coll\"".to_string()));
    assert_eq!(names(&s).len(), 2);
    let uc = DeleteBoardUseCase::new("coll".to_string());
    assert_eq!(uc.delete(&mut s), Ok(()));
    assert_eq!(names(&s), vec!["code".to_string()]);
}

#[test]
fn modifier_padset_create_then_delete_restores() {
    let mut s = settings_with(vec![board("code")], vec![]);
    let ctrl_shift = ModifierState { ctrl: true, shift: true, alt: false, super_key: false };
    let ps = create_modifier_pad_set(&mut s, "code", ctrl_shift).unwrap();
    assert_eq!(ps.name, "code/ctrl_shift");
    assert!(ps.items.is_empty());
    assert_eq!(s.get_board("code").unwrap().modifier_pads, vec![("Ctrl+Shift".to_string(), "code/ctrl_shift".to_string())]);
    assert_eq!(
        create_modifier_pad_set(&mut s, "code", ctrl_shift).map(|p| p.name),
        Err("This modifier pad set already exists for the board".to_string())
    );
    assert_eq!(delete_modifier_pad_set(&mut s, "code", "Ctrl+Shift"), Ok(()));
    assert!(s.get_board("code").unwrap().modifier_pads.is_empty());
    assert!(s.padsets().is_empty());
    assert_eq!(
        delete_modifier_pad_set(&mut s, "code", "Ctrl+Shift"),
        Err("This modifier pad set does not exist for the board".to_string())
    );
    assert_eq!(
        create_modifier_pad_set(&mut s, "none", ctrl_shift).map(|p| p.name),
        Err("Board 'none' not found".to_string())
    );
}

#[test]
fn convert_to_chain_renames_and_inserts() {
    let mut b = board("code");
    b.title = Some("Code".to_string());
    b.detection = Detection::Win32("code".to_string());
    b.base_pads = Some("code".to_string());
    let mut s = settings_with(vec![board("home"), b], vec!["code"]);
    let uc = ConvertToBoardChainUseCase::new("code".to_string());
    assert_eq!(uc.validate(&s), Ok(()));
    assert_eq!(uc.convert(&mut s), Ok(()));
    assert_eq!(names(&s), vec!["home".to_string(), "code".to_string(), "code/stub".to_string()]);
    let chain = s.get_board("code").unwrap();
    assert_eq!(chain.title, Some("Code".to_string()));
    assert_eq!(chain.base_pads, None);
    match chain.board_type {
        BoardType::Chain(p) => {
            assert_eq!(p.boards, "code/stub");
            assert_eq!(p.initial_board, None);
        },
        _ => panic!("not a chain"),
    }
    let stub = s.get_board("code/stub").unwrap();
    assert!(matches!(stub.detection, Detection::NoMatch));
    assert_eq!(stub.base_pads, Some("code".to_string()));
    assert_eq!(uc.validate(&s), Err("Board\n\"code\"\nis already a Collection".to_string()));
    assert_eq!(
        convert_to_board_chain(&mut s, "code"),
        Err("Only Static boards can be converted to BoardChain".to_string())
    );
}

#[test]
fn new_chain_with_board_goes_before_it() {
    let mut b = board("code");
    b.detection = Detection::Win32("code".to_string());
    let mut s = settings_with(vec![board("home"), b], vec![]);
    let c = create_new_chain_with_board(&mut s, "code").unwrap();
    assert_eq!(c.name, "code/chain");
    assert!(matches!(c.detection, Detection::NoMatch));
    assert_eq!(names(&s), vec!["home".to_string(), "code/chain".to_string(), "code".to_string()]);
    match c.board_type {
        BoardType::Chain(p) => {
            assert_eq!(p.boards, "code");
            assert_eq!(p.initial_board, Some("code".to_string()));
        },
        _ => panic!("not a chain"),
    }
    assert_eq!(
        create_new_chain_with_board(&mut s, "code").map(|b| b.name),
        Err("Board 'code/chain' already exists".to_string())
    );
    assert_eq!(
        create_new_chain_with_board(&mut s, "code/chain").map(|b| b.name),
        Err("Only Static boards can be added to BoardChain".to_string())
    );
}
