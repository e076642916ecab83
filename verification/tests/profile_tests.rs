use hotkeys::profiles::{Action, Pad, Profile, ProfileMatch};

fn profile() -> Profile {
    let pads = vec![Pad::new("Tab", "new tab", vec![Action::Shortcut("Ctrl T".to_string()), Action::Pause(200)])];
    Profile::new("Chrome", "chrome", "dark", pads, 3)
}

#[test]
fn profiles_match_by_lower_case_name_or_id() {
    let p = profile();
    assert!(p.is_match(&ProfileMatch::NameEquals("Chrome".to_string())));
    assert!(!p.is_match(&ProfileMatch::NameEquals("chrome.exe".to_string())));
    assert!(p.is_match(&ProfileMatch::NameContains("CHROME.EXE".to_string())));
    assert!(!p.is_match(&ProfileMatch::NameContains("firefox.exe".to_string())));
    assert!(p.is_match(&ProfileMatch::IdEquals(3)));
    assert!(!p.is_match(&ProfileMatch::IdEquals(4)));
}

#[test]
fn pads_past_the_last_are_empty() {
    let p = profile();
    let first = p.get_or_default(0);
    assert_eq!(first.title, "Tab");
    assert_eq!(first.actions.len(), 2);
    let none = p.get_or_default(5);
    assert_eq!(none.title, "");
    assert_eq!(none.description, "");
    assert!(none.actions.is_empty());
}

#[test]
fn keywords_match_whatever_their_case() {
    let p = Profile::new("IDEA", "Idea64", "dark", Vec::new(), 1);
    assert!(p.is_match(&ProfileMatch::NameEquals("idea64".to_string())));
    assert!(p.is_match(&ProfileMatch::NameContains("IDEA64.EXE".to_string())));
    assert!(!p.is_match(&ProfileMatch::NameContains("idea.exe".to_string())));
}
