use hotkeys::domain::data::{Board, ColorScheme, Detection, Pad, PadSet, TextStyle};
use hotkeys::domain::resources::Resources;
use hotkeys::settings::icons::{collect_icon_refs, validate_icons_given};
use hotkeys::settings::persistence::{
    ComponentsData, SettingsData, SourceMapper, SourceMapping,
};
use hotkeys::text::{sort_strings, str_le_exec};
use hotkeys::settings::settings::Settings;
use hotkeys::settings::validation::SettingsValidator;

fn new_mapping(kind: &str, name: &str, source: Option<&str>) -> SourceMapping {
    SourceMapping::new(kind, name, source.map(|s| s.to_string()))
}

fn board(name: &str) -> Board {
    let mut b = Board::default();
    b.name = name.to_string();
    b
}

fn padset(name: &str) -> PadSet {
    PadSet::new(name, Vec::new())
}

fn scheme(name: &str) -> ColorScheme {
    let mut c = ColorScheme::default();
    c.name = name.to_string();
    c
}

fn style(name: &str) -> TextStyle {
    let mut t = TextStyle::default();
    t.name = name.to_string();
    t
}

fn settings_with(boards: Vec<Board>) -> Settings {
    let mut data = SettingsData::default();
    data.boards = boards;
    Settings::from_data(data, Resources::new(vec!["config".to_string()]))
}

#[test]
fn test_find_mappable() {
    let mappings = vec![
        new_mapping("Board", "code", Some("settings.code.json")),
        new_mapping("PadSet", "code", Some("settings.code.json")),
        new_mapping("TextStyle", "default", Some("settings.styling.json")),
        new_mapping("ColorScheme", "default", Some("settings.styling.json")),
        new_mapping("KeyboardLayout", "default", Some("settings.layouts.json")),
        new_mapping("Board", "home", None),
    ];

    let mut text_style = TextStyle::default();
    let text_style_source = mappings.map(&text_style);
    assert_eq!(text_style_source, Some("settings.styling.json".to_string()));

    text_style.name = "custom".to_string();
    let text_style_source = mappings.map(&text_style);
    assert_eq!(text_style_source, Some("settings.styling.json".to_string()));

    let color_scheme = ColorScheme::default();
    let color_scheme_source = mappings.map(&color_scheme);
    assert_eq!(color_scheme_source, Some("settings.styling.json".to_string()));

    let mut board = Board::default();
    board.name = "code".to_string();
    let board_source = mappings.map(&board);
    assert_eq!(board_source, Some("settings.code.json".to_string()));

    board.name = "home".to_string();
    let board_source = mappings.map(&board);
    assert_eq!(board_source, None);

    board.name = "code/extra".to_string();
    let board_source = mappings.map(&board);
    assert_eq!(board_source, Some("settings.code.json".to_string()));

    board.name = "unknown".to_string();
    let board_source = mappings.map(&board);
    assert_eq!(board_source, None);

    let mut padset = PadSet::default();
    padset.name = "code".to_string();
    let padset_source = mappings.map(&padset);
    assert_eq!(padset_source, Some("settings.code.json".to_string()));

    padset.name = "home".to_string();
    let padset_source = mappings.map(&padset);
    assert_eq!(padset_source, None);

    padset.name = "code/extra".to_string();
    let padset_source = mappings.map(&padset);
    assert_eq!(padset_source, Some("settings.code.json".to_string()));

    padset.name = "unknown".to_string();
    let padset_source = mappings.map(&padset);
    assert_eq!(padset_source, None);
}

#[test]
fn all_mappings_list_every_component_in_order() {
    let mut c = ComponentsData::default();
    c.text_styles.push(style("t"));
    c.color_schemes.push(scheme("c"));
    c.boards.push(board("b"));
    c.padsets.push(padset("p"));
    let ms = c.all_mappings_for(Some("x.json".to_string()));
    let names: Vec<(String, String)> =
        ms.iter().map(|m| (m.component_type.clone(), m.name.clone())).collect();
    assert_eq!(
        names,
        vec![
            ("TextStyle".to_string(), "t".to_string()),
            ("ColorScheme".to_string(), "c".to_string()),
            ("Board".to_string(), "b".to_string()),
            ("PadSet".to_string(), "p".to_string()),
        ]
    );
    assert!(ms.iter().all(|m| m.source == Some("x.json".to_string())));
}

#[test]
fn adding_then_getting_a_board_gives_it_back() {
    let mut s = settings_with(vec![board("home")]);
    assert!(!s.is_dirty());
    let mut b = board("code");
    b.title = Some("Code".to_string());
    assert_eq!(s.add_board(b), Ok(()));
    assert!(s.is_dirty());
    let got = s.get_board("code").unwrap();
    assert_eq!(got.title, Some("Code".to_string()));
    assert_eq!(s.boards(), vec!["home".to_string(), "code".to_string()]);
}

#[test]
fn adding_a_duplicate_board_is_refused_and_changes_nothing() {
    let mut s = settings_with(vec![board("home")]);
    assert_eq!(s.add_board(board("home")), Err("Board 'home' already exists".to_string()));
    assert!(!s.is_dirty());
    assert_eq!(s.boards(), vec!["home".to_string()]);
}

#[test]
fn missing_board_is_an_error() {
    let s = settings_with(vec![board("home")]);
    assert_eq!(s.get_board("nope").err(), Some("Board 'nope' not found".to_string()));
    assert_eq!(s.get_padset("nope").err(), Some("PadSet 'nope' not found".to_string()));
}

#[test]
fn set_board_replaces_the_one_of_that_name() {
    let mut s = settings_with(vec![board("home"), board("code")]);
    let mut b = board("code");
    b.icon = Some("code.ico".to_string());
    assert_eq!(s.set_board(b), Ok(()));
    assert_eq!(s.get_board("code").unwrap().icon, Some("code.ico".to_string()));
    assert_eq!(s.set_board(board("other")), Err("Board 'other' not found".to_string()));
}

#[test]
fn delete_color_scheme_removes_it() {
    let mut s = settings_with(vec![board("home")]);
    assert_eq!(s.add_color_scheme(scheme("dark")), Ok(()));
    assert!(s.get_color_scheme("dark").is_some());
    assert_eq!(s.delete_color_scheme("dark"), Ok(()));
    assert!(s.get_color_scheme("dark").is_none());
    assert_eq!(s.delete_color_scheme("dark"), Err("ColorScheme 'dark' not found".to_string()));
}

#[test]
fn rename_color_scheme_updates_references() {
    let mut b = board("home");
    b.color_scheme = Some("dark".to_string());
    let mut s = settings_with(vec![b, board("code")]);
    assert_eq!(s.add_color_scheme(scheme("dark")), Ok(()));
    let mut pad = Pad::default();
    pad.color_scheme = Some("dark".to_string());
    assert_eq!(s.add_padset(PadSet::new("pads", vec![pad])), Ok(()));

    assert_eq!(s.rename_color_scheme("dark", "night"), Ok(()));
    assert!(s.get_color_scheme("dark").is_none());
    assert!(s.get_color_scheme("night").is_some());
    assert_eq!(s.get_board("home").unwrap().color_scheme, Some("night".to_string()));
    assert_eq!(s.get_board("code").unwrap().color_scheme, None);
    assert_eq!(s.get_padset("pads").unwrap().items[0].color_scheme, Some("night".to_string()));
}

#[test]
fn rename_refuses_existing_or_missing_names() {
    let mut s = settings_with(vec![board("home")]);
    assert_eq!(s.add_text_style(style("a")), Ok(()));
    assert_eq!(s.rename_text_style("a", "default"), Err("TextStyle 'default' already exists".to_string()));
    assert_eq!(s.rename_text_style("zzz", "b"), Err("TextStyle 'zzz' not found".to_string()));
}

#[test]
fn resolve_falls_back_to_the_default() {
    let s = settings_with(vec![board("home")]);
    assert_eq!(s.resolve_color_scheme(&Some("missing".to_string())).name, "default");
    assert_eq!(s.resolve_color_scheme(&None).name, "default");
    assert_eq!(s.resolve_text_style(&None).name, "default");
}

#[test]
fn detection_finds_the_first_matching_board() {
    let mut code = board("code");
    code.detection = Detection::Win32("Code".to_string());
    let mut other = board("other");
    other.detection = Detection::Win32("code".to_string());
    let s = settings_with(vec![board("home"), code, other]);
    assert_eq!(s.detect("C:/apps/CODE.exe"), Some("code".to_string()));
    assert_eq!(s.detect("notepad.exe"), None);
    assert_eq!(s.detections().len(), 2);
    assert_eq!(s.home_board_name(), "home");
}

#[test]
fn validation_reports_duplicates_and_missing_references() {
    let mut data = SettingsData::default();
    data.boards = vec![board("home"), board("home")];
    assert_eq!(
        data.validate_name_uniquenes(),
        Err("Duplicate 'Board' name found: home".to_string())
    );

    let mut data = SettingsData::default();
    assert_eq!(data.validate_data_integrity(), Err("No boards defined in settings".to_string()));
    let mut b = board("home");
    b.color_scheme = Some("nope".to_string());
    data.boards = vec![b];
    assert_eq!(
        data.validate_data_integrity(),
        Err("Color scheme validation failed: Color scheme 'nope' for board 'home' not found in settings"
            .to_string())
    );

    let mut b = board("home");
    b.base_pads = Some("pads".to_string());
    data.boards = vec![b];
    assert_eq!(
        data.validate_data_integrity(),
        Err("Pad reference validation failed: Base pad set 'pads' not found for board 'home'".to_string())
    );

    let mut pad = Pad::default();
    pad.header = Some("H".to_string());
    pad.board = Some("nowhere".to_string());
    data.boards = vec![board("home")];
    data.padsets = vec![PadSet::new("pads", vec![pad])];
    assert_eq!(
        data.validate_data_integrity(),
        Err("Cross board validation failed: Invalid board reference 'nowhere' in pad 'Some(\"H\")' of padset 'pads'"
            .to_string())
    );

    data.padsets = vec![PadSet::new("pads", vec![Pad::default()])];
    assert_eq!(data.validate_data_integrity(), Ok(()));
    assert_eq!(data.validate_name_uniquenes(), Ok(()));
}

#[test]
fn modifier_pad_set_must_exist() {
    let mut data = SettingsData::default();
    let mut b = board("home");
    b.modifier_pads = vec![("ctrl".to_string(), "ctrlpads".to_string())];
    data.boards = vec![b];
    assert_eq!(
        data.validate_data_integrity(),
        Err("Pad reference validation failed: Modifier pad set 'ctrlpads' not found for board 'home' with modifier 'ctrl'"
            .to_string())
    );
}

#[test]
fn saving_clears_the_changed_mark() {
    let mut s = settings_with(vec![board("home")]);
    s.mark_dirty();
    assert!(s.is_dirty());
    s.mark_saved();
    assert!(!s.is_dirty());
}

#[test]
fn separate_by_groups_components_by_file() {
    let mappings = vec![
        new_mapping("Board", "code", Some("settings.code.json")),
        new_mapping("PadSet", "code", Some("settings.code.json")),
        new_mapping("TextStyle", "default", Some("settings.styling.json")),
        new_mapping("ColorScheme", "default", Some("settings.styling.json")),
        new_mapping("Board", "home", None),
    ];

    let mut components = ComponentsData::default();
    components.boards.push(board("code"));
    components.boards.push(board("home"));
    components.boards.push(board("other"));

    components.padsets.push(padset("code"));
    components.padsets.push(padset("other"));

    components.text_styles.push(style("default"));
    components.text_styles.push(style("custom"));

    components.color_schemes.push(scheme("default"));
    components.color_schemes.push(scheme("custom"));

    let separated = components.separate_by(&mappings);

    assert_eq!(separated.len(), 3);

    let settings_styles = separated.get(&Some("settings.styling.json".to_string())).unwrap();
    assert_eq!(settings_styles.boards.len(), 0);
    assert_eq!(settings_styles.padsets.len(), 0);
    assert_eq!(settings_styles.text_styles.len(), 2);
    assert_eq!(settings_styles.text_styles[0].name, "default");
    assert_eq!(settings_styles.text_styles[1].name, "custom");
    assert_eq!(settings_styles.color_schemes.len(), 2);
    assert_eq!(settings_styles.color_schemes[0].name, "default");
    assert_eq!(settings_styles.color_schemes[1].name, "custom");

    let settings_code = separated.get(&Some("settings.code.json".to_string())).unwrap();
    assert_eq!(settings_code.boards.len(), 1);
    assert_eq!(settings_code.boards[0].name, "code");
    assert_eq!(settings_code.padsets.len(), 1);
    assert_eq!(settings_code.padsets[0].name, "code");
    assert_eq!(settings_code.text_styles.len(), 0);
    assert_eq!(settings_code.color_schemes.len(), 0);

    let settings_none = separated.get(&None).unwrap();
    assert_eq!(settings_none.boards.len(), 2);
    assert_eq!(settings_none.boards[0].name, "home");
    assert_eq!(settings_none.boards[1].name, "other");
    assert_eq!(settings_none.padsets.len(), 1);
    assert_eq!(settings_none.padsets[0].name, "other");
    assert_eq!(settings_none.text_styles.len(), 0);
    assert_eq!(settings_none.color_schemes.len(), 0);

    assert!(separated.get(&Some("settings.layouts.json".to_string())).is_none());
}

fn settings_data_with_icons() -> SettingsData {
    let mut data = SettingsData::default();
    let mut b = board("main");
    b.icon = Some("main.png".to_string());
    let mut quiet = board("quiet");
    quiet.icon = Some(String::new());
    data.boards = vec![b, quiet];
    let mut p = Pad::default();
    p.icon = Some("pad.png".to_string());
    p.header = Some("Hi".to_string());
    data.padsets = vec![PadSet::new("set", vec![p])];
    data
}

#[test]
fn icons_are_checked_boards_first_then_pads() {
    let data = settings_data_with_icons();
    assert_eq!(validate_icons_given(&data, &vec![true, true]), Ok(()));
    assert_eq!(
        validate_icons_given(&data, &vec![false]),
        Err("Icon 'main.png' not found for board 'main'".to_string())
    );
    assert_eq!(
        validate_icons_given(&data, &vec![true, false]),
        Err("Icon 'pad.png' not found for pad 'Some(\"Hi\")' in padset 'set'".to_string())
    );
}

#[test]
fn icons_to_check_are_the_boards_then_the_pads() {
    let data = settings_data_with_icons();
    let refs: Vec<String> = collect_icon_refs(&data).into_iter().map(|(icon, _)| icon).collect();
    assert_eq!(refs, vec!["main.png".to_string(), "pad.png".to_string()]);
}

#[test]
fn strings_sort_in_string_order() {
    let v: Vec<String> = ["b.json", "a.json", "B.json", "ab.json", "a.json"].iter().map(|s| s.to_string()).collect();
    let mut expected = v.clone();
    expected.sort();
    assert_eq!(sort_strings(v), expected);
    assert!(str_le_exec("a", "ab"));
    assert!(!str_le_exec("b", "ab"));
    assert!(str_le_exec("", ""));
}

#[test]
fn the_main_file_keeps_options_main_components_and_sorted_includes() {
    let mut data = SettingsData::default();
    data.boards = vec![board("main"), board("x"), board("y")];
    data.timeout = 7;
    data.source_mappings = vec![
        new_mapping("Board", "x", Some("z.json")),
        new_mapping("Board", "y", Some("a.json")),
    ];
    let separated = data.as_components().separate_by(&data.source_mappings);
    let main = data.main_file_data(&separated);
    assert_eq!(main.timeout, 7);
    assert_eq!(
        main.includes,
        vec!["a.json".to_string(), "settings.styling.json".to_string(), "z.json".to_string()]
    );
    let names: Vec<String> = main.boards.iter().map(|b| b.name.clone()).collect();
    assert_eq!(names, vec!["main".to_string()]);
    assert!(main.source_mappings.is_empty());
}
