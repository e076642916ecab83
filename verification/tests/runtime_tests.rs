use hotkeys::actions::{next_step, reload_and_restart, ActionOutcome, NextStep};
use hotkeys::domain::data::{Board, Detection};
use hotkeys::domain::resources::{should_fetch_icon, Resources};
use hotkeys::settings::persistence::SettingsData;
use hotkeys::settings::settings::Settings;

fn outcome(success: bool, reload: bool, restart: bool) -> ActionOutcome {
    ActionOutcome { success, reload, restart }
}

fn settings_with(names: &[&str]) -> Settings {
    let mut data = SettingsData::default();
    data.boards = names
        .iter()
        .map(|n| {
            let mut b = Board::default();
            b.name = n.to_string();
            b
        })
        .collect();
    Settings::from_data(data, Resources::new(vec!["config".to_string()]))
}

#[test]
fn failed_actions_ask_for_nothing() {
    assert_eq!(reload_and_restart(&vec![]), (false, false));
    assert_eq!(reload_and_restart(&vec![outcome(false, true, true)]), (false, false));
    assert_eq!(reload_and_restart(&vec![outcome(true, true, false), outcome(true, false, false)]), (true, false));
    assert_eq!(reload_and_restart(&vec![outcome(true, false, true)]), (false, true));
}

#[test]
fn after_actions_restart_or_show_the_board() {
    let s = settings_with(&["home", "code"]);
    assert_eq!(next_step(&s, true, Some("code".to_string())), NextStep::Restart(Some("code".to_string())));
    assert_eq!(next_step(&s, true, None), NextStep::Restart(None));
    assert_eq!(next_step(&s, false, Some("code".to_string())), NextStep::ShowBoard("code".to_string()));
    assert_eq!(next_step(&s, false, Some("gone".to_string())), NextStep::Stay);
    assert_eq!(next_step(&s, false, None), NextStep::Stay);
}

#[test]
fn icons_are_fetched_once_for_unknown_processes() {
    let detections = vec![Detection::Win32("code".to_string())];
    assert!(!should_fetch_icon(&detections, &vec![], "Code.exe"));
    assert!(should_fetch_icon(&detections, &vec![], "notepad.exe"));
    assert!(!should_fetch_icon(&detections, &vec!["detected_notepad.png".to_string()], "notepad.exe"));
    assert!(should_fetch_icon(&vec![], &vec!["detected_other.png".to_string()], "notepad.exe"));
}

#[test]
fn the_hook_shows_the_detected_board_or_home_with_the_process() {
    let mut data = SettingsData::default();
    let mut b = Board::default();
    b.name = "editor".to_string();
    b.detection = Detection::Win32("notepad".to_string());
    data.boards = vec![b];
    let s = Settings::from_data(data, Resources::new(vec!["config".to_string()]));
    let (name, params) = s.hooked_board("Notepad.exe", "Untitled");
    assert_eq!(name, "editor");
    assert!(params.is_empty());
    let (name, params) = s.hooked_board("calc.exe", "Calculator");
    assert_eq!(name, s.home_board_name());
    let pairs: Vec<(String, String)> = params.iter().map(|p| (p.name.clone(), p.value.clone())).collect();
    assert_eq!(
        pairs,
        vec![
            ("process_name".to_string(), "calc.exe".to_string()),
            ("window_title".to_string(), "Calculator".to_string()),
        ]
    );
}
