use hotkeys::domain::resources::{slugify_process_name, Resources};

fn two_dirs() -> Resources {
    Resources::new(vec!["first".to_string(), "second".to_string()])
}

#[test]
fn candidate_paths_are_the_name_in_each_directory() {
    let r = two_dirs();
    assert_eq!(r.candidate_paths("x.json"), vec!["first/x.json".to_string(), "second/x.json".to_string()]);
    assert_eq!(r.icon_file_name("a.png"), "icons/a.png");
    assert!(Resources::new(Vec::new()).candidate_paths("x.json").is_empty());
}

#[test]
fn file_takes_the_first_directory_that_holds_it() {
    let r = two_dirs();
    assert_eq!(r.file("x.json", &vec![false, true]), Some("second/x.json".to_string()));
    assert_eq!(r.file("x.json", &vec![true, true]), Some("first/x.json".to_string()));
    assert_eq!(r.icon("a.png", &vec![false, true]), Some("second/icons/a.png".to_string()));
    assert_eq!(r.settings_json(&vec![true]), Some("first/settings.json".to_string()));
    assert_eq!(r.log_toml(&vec![false, true]), Some("second/log.toml".to_string()));
}

#[test]
fn file_is_none_when_no_check_found_it() {
    let r = two_dirs();
    assert_eq!(r.file("x.json", &vec![false, false]), None);
    assert_eq!(r.file("x.json", &vec![false]), None);
    assert_eq!(r.file("x.json", &Vec::new()), None);
    assert_eq!(Resources::new(Vec::new()).file("x.json", &vec![true]), None);
}

#[test]
fn new_file_goes_to_the_first_directory_only_when_not_found() {
    let r = two_dirs();
    assert_eq!(r.new_file("x.json", &vec![false, false]), Some("first/x.json".to_string()));
    assert_eq!(r.new_file("x.json", &vec![false, true]), None);
    assert_eq!(r.new_icon("a.png", &vec![false, false]), Some("first/icons/a.png".to_string()));
    assert_eq!(r.new_icon("a.png", &vec![true]), None);
}

#[test]
fn settings_json_or_prefers_the_found_file() {
    let r = two_dirs();
    assert_eq!(r.settings_json_or(&vec![false, true]), "second/settings.json");
    assert_eq!(r.settings_json_or(&vec![false, false]), "first/settings.json");
    assert_eq!(r.settings_json_or(&Vec::new()), "first/settings.json");
}

#[test]
fn detected_icon_path_prefers_the_found_icon() {
    let r = two_dirs();
    let icon = r.detected_icon("My App.exe".to_string());
    assert_eq!(icon.path(&vec![false, true]), "second/icons/detected_my_app.png");
    assert_eq!(icon.path(&vec![false, false]), "first/icons/detected_my_app.png");
    assert!(icon.icon_exists(&vec![false, true]));
    assert!(!icon.icon_exists(&vec![false, false]));
    assert!(icon.as_option(&vec![true]).is_some());
    assert!(icon.as_option(&Vec::new()).is_none());
}

#[test]
fn slugs_have_no_capitals_spaces_dashes_or_pluses() {
    assert_eq!(slugify_process_name("My App-2+.EXE"), "my_app_2_");
    let s = slugify_process_name("ÄÖ Ü-Straße+KÖNIG.exe");
    assert!(!s.chars().any(|c| c == ' ' || c == '-' || c == '+' || c.is_ascii_uppercase()), "{}", s);
}
