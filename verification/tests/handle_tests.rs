use hotkeys::domain::data::{Board, ColorScheme, Detection, Pad, PadSet, TextStyle};
use hotkeys::domain::integration::{BoardType, ChainParams};
use hotkeys::domain::resources::Resources;
use hotkeys::input::keys::ModifierState;
use hotkeys::model::handle::{
    create_board, BoardHandle, ColorSchemeHandle, ConvertToBoardChainUseCase, CreateDetectableBoardUseCase,
    DeleteBoardUseCase, TextStyleHandle,
};
use hotkeys::settings::persistence::SettingsData;
use hotkeys::settings::settings::Settings;

fn board(name: &str) -> Board {
    let mut b = Board::default();
    b.name = name.to_string();
    b
}

fn scheme(name: &str) -> ColorScheme {
    let mut c = ColorScheme::default();
    c.name = name.to_string();
    c
}

fn settings_with(boards: Vec<Board>) -> Settings {
    let mut data = SettingsData::default();
    data.boards = boards;
    Settings::from_data(data, Resources::new(vec!["config".to_string()]))
}

#[test]
fn scheme_handle_cycles_through_the_names() {
    let mut s = settings_with(vec![board("home")]);
    s.add_color_scheme(scheme("dark")).unwrap();
    s.add_color_scheme(scheme("light")).unwrap();
    let mut h = ColorSchemeHandle::new(None);
    assert_eq!(h.name(), "default");
    assert_eq!(h.next_name(&s), Some("dark".to_string()));
    assert_eq!(h.prev_name(&s), Some("light".to_string()));
    h.move_next(&s);
    h.move_next(&s);
    assert_eq!(h.name(), "light");
    h.move_next(&s);
    assert_eq!(h.name(), "default");
    h.move_prev(&s);
    assert_eq!(h.name(), "light");
    h.select("missing".to_string());
    assert_eq!(h.next_name(&s), None);
    assert!(h.as_data(&s).is_err());
}

#[test]
fn handle_update_keeps_the_name() {
    let mut s = settings_with(vec![board("home")]);
    let h = TextStyleHandle::new(Some("default".to_string()));
    let mut t = TextStyle::default();
    t.tag_font = "Arial 9".to_string();
    assert_eq!(h.update(&mut s, t), Ok(()));
    assert_eq!(h.as_data(&s).unwrap().tag_font, "Arial 9");
    let mut other = TextStyle::default();
    other.name = "other".to_string();
    assert_eq!(
        h.update(&mut s, other),
        Err("Cannot change the name of an existing TextStyle".to_string())
    );
}

#[test]
fn board_handle_reads_and_sets() {
    let mut b = board("code");
    b.icon = Some(String::new());
    b.base_pads = Some("code".to_string());
    b.modifier_pads = vec![("Ctrl".to_string(), "code-ctrl".to_string())];
    let mut s = settings_with(vec![board("home"), b]);
    s.add_color_scheme(scheme("dark")).unwrap();
    let h = BoardHandle::new("code".to_string());
    assert_eq!(h.title(&s), Ok("code".to_string()));
    assert_eq!(h.icon(&s), Ok(None));
    assert_eq!(h.color_scheme(&s).unwrap().name, "default");
    assert_eq!(h.set_title(&mut s, Some("Code".to_string())), Ok(()));
    assert_eq!(h.title(&s), Ok("Code".to_string()));
    assert_eq!(h.set_color_scheme(&mut s, Some("dark".to_string())), Ok(()));
    assert_eq!(h.color_scheme(&s).unwrap().name, "dark");
    assert_eq!(h.set_color_scheme(&mut s, Some("nope".to_string())), Ok(()));
    assert_eq!(s.get_board("code").unwrap().color_scheme, None);
    let ctrl = ModifierState { ctrl: true, shift: false, alt: false, super_key: false };
    assert_eq!(h.padset(&s, Some(ctrl)).unwrap().name(), "code-ctrl");
    assert_eq!(h.padset(&s, None).unwrap().name(), "code");
    let missing = BoardHandle::new("none".to_string());
    assert_eq!(missing.title(&s), Err("Board 'none' not found".to_string()));
    assert_eq!(
        BoardHandle::new("home".to_string()).padset(&s, None).err(),
        Some("PadSet not found for the given modifier".to_string())
    );
}

#[test]
fn detected_process_gets_its_board() {
    let mut s = settings_with(vec![board("home")]);
    let uc = CreateDetectableBoardUseCase::new("My App.EXE".to_string(), None, Some("my_app.ico".to_string()));
    assert_eq!(uc.board_name(), "my_app");
    let b = uc.create_board(&mut s).unwrap();
    assert_eq!(b.name, "my_app");
    assert_eq!(b.title, Some("my_app".to_string()));
    assert_eq!(b.icon, Some("my_app.ico".to_string()));
    assert_eq!(b.base_pads, Some("my_app".to_string()));
    match &b.detection {
        Detection::Win32(k) => assert_eq!(k, "my app.exe"),
        Detection::NoMatch => panic!("expected a detection"),
    }
    assert!(s.get_padset("my_app").is_ok());
    assert_eq!(
        uc.create_board(&mut s).err(),
        Some("A board for this process already exists".to_string())
    );
}

#[test]
fn child_boards_hang_under_their_root() {
    let mut parent = board("chrome");
    parent.icon = Some("chrome.ico".to_string());
    let mut s = settings_with(vec![board("home"), parent]);
    let child = create_board(&mut s, "chrome".to_string(), "Dev Tools".to_string()).unwrap();
    assert_eq!(child.name, "chrome/dev_tools");
    assert_eq!(child.title, Some("Dev Tools".to_string()));
    assert_eq!(child.icon, Some("chrome.ico".to_string()));
    let grandchild = create_board(&mut s, "chrome/dev_tools".to_string(), "console".to_string()).unwrap();
    assert_eq!(grandchild.name, "chrome/console");
    assert_eq!(
        create_board(&mut s, "chrome".to_string(), "console".to_string()).err(),
        Some("A board with this name already exists".to_string())
    );
    assert_eq!(
        create_board(&mut s, "nope".to_string(), "x".to_string()).err(),
        Some("Parent board does not exist".to_string())
    );
}

#[test]
fn chain_conversion_and_deletion_are_checked() {
    let mut chain = board("chain");
    chain.board_type = BoardType::Chain(ChainParams {
        boards: "a, b".to_string(),
        initial_board: None,
        params: vec![],
    });
    let mut pad = Pad::default();
    pad.board = Some("c".to_string());
    let mut s = settings_with(vec![board("home"), board("a"), board("c"), chain]);
    s.add_padset(PadSet::new("pads", vec![pad])).unwrap();

    assert_eq!(
        ConvertToBoardChainUseCase::new("chain".to_string()).validate(&s),
        Err("Board\n\"chain\"\nis already a Collection".to_string())
    );
    assert_eq!(
        ConvertToBoardChainUseCase::new("b".to_string()).validate(&s),
        Err("Cannot convert\n\"b\"\nas it is listed in\n\"chain\"".to_string())
    );
    assert_eq!(ConvertToBoardChainUseCase::new("home".to_string()).validate(&s), Ok(()));

    assert_eq!(
        DeleteBoardUseCase::new("c".to_string()).validate(&s),
        Err("Board\n\"c\"\nis referenced by PadSet\n\"pads\"".to_string())
    );
    assert_eq!(
        DeleteBoardUseCase::new("a".to_string()).validate(&s),
        Err("Board \"a\"\nis listed in Collection\n\"chain\"".to_string())
    );
    assert_eq!(DeleteBoardUseCase::new("home".to_string()).validate(&s), Ok(()));
}
