use hotkeys::components::tour::{TagAnchor, TourState};
use hotkeys::domain::data::{ColorScheme, Pad as StoredPad, PadSet};
use hotkeys::domain::resources::Resources;
use hotkeys::model::data::PadId;
use hotkeys::model::handle::PadSetHandle;
use hotkeys::model::pads::{convert_padset, flatten, overlay, pad, update, Pad};
use hotkeys::settings::persistence::SettingsData;
use hotkeys::settings::settings::Settings;

fn stored(text: &str) -> StoredPad {
    let mut p = StoredPad::default();
    p.text = Some(text.to_string());
    p
}

fn shown(id: PadId, text: &str) -> Pad {
    Pad::new(id, stored(text), None, None)
}

fn texts(pads: &[Pad]) -> Vec<(PadId, Option<String>)> {
    pads.iter().map(|p| (p.pad_id, p.data.text.clone())).collect()
}

#[test]
fn pad_finds_the_first_at_a_place_or_a_blank_one() {
    let pads = vec![shown(PadId::Two, "a"), shown(PadId::Two, "b")];
    assert_eq!(pad(&pads, PadId::Two).data.text, Some("a".to_string()));
    let blank = pad(&pads, PadId::Seven);
    assert_eq!(blank.pad_id, PadId::Seven);
    assert_eq!(blank.data.text, None);
}

#[test]
fn update_replaces_or_adds() {
    let mut pads = vec![shown(PadId::One, "a"), shown(PadId::Three, "c")];
    update(&mut pads, shown(PadId::Three, "C"));
    update(&mut pads, shown(PadId::Two, "b"));
    assert_eq!(
        texts(&pads),
        vec![
            (PadId::One, Some("a".to_string())),
            (PadId::Three, Some("C".to_string())),
            (PadId::Two, Some("b".to_string())),
        ]
    );
}

#[test]
fn overlay_then_flatten_fills_every_place_up_to_the_last() {
    let pads = vec![shown(PadId::One, "a")];
    let merged = overlay(&pads, vec![shown(PadId::Four, "d"), shown(PadId::One, "A")]);
    let flat = flatten(&merged);
    assert_eq!(
        texts(&flat),
        vec![
            (PadId::One, Some("A".to_string())),
            (PadId::Two, None),
            (PadId::Three, None),
            (PadId::Four, Some("d".to_string())),
        ]
    );
    assert_eq!(flatten(&Vec::new()).len(), 1);
}

fn settings_with_padset() -> Settings {
    let mut data = SettingsData::default();
    let mut scheme = ColorScheme::default();
    scheme.name = "dark".to_string();
    data.color_schemes = vec![scheme];
    let mut first = stored("one");
    first.color_scheme = Some("dark".to_string());
    let mut second = stored("two");
    second.color_scheme = Some("missing".to_string());
    data.padsets = vec![PadSet::new("set", vec![first, second])];
    Settings::from_data(data, Resources::new(vec!["config".to_string()]))
}

#[test]
fn convert_padset_places_pads_in_order_with_their_schemes() {
    let s = settings_with_padset();
    let ps = s.get_padset("set").unwrap();
    let pads = convert_padset(&ps.items, &s);
    assert_eq!(pads.len(), 2);
    assert_eq!(pads[0].pad_id, PadId::One);
    assert_eq!(pads[0].color_scheme.as_ref().map(|c| c.name.clone()), Some("dark".to_string()));
    assert_eq!(pads[1].pad_id, PadId::Two);
    assert!(pads[1].color_scheme.is_none());
}

#[test]
fn set_pad_stores_the_edited_pad_in_its_place() {
    let mut s = settings_with_padset();
    let h = PadSetHandle::new("set".to_string());
    assert!(h.set_pad(&mut s, shown(PadId::Three, "three")).is_ok());
    let items = s.get_padset("set").unwrap().items;
    let got: Vec<(Option<String>, Option<String>)> =
        items.iter().map(|p| (p.text.clone(), p.color_scheme.clone())).collect();
    assert_eq!(
        got,
        vec![
            (Some("one".to_string()), Some("dark".to_string())),
            (Some("two".to_string()), None),
            (Some("three".to_string()), None),
        ]
    );
    assert!(s.is_dirty());
    let missing = PadSetHandle::new("nope".to_string());
    assert_eq!(missing.set_pad(&mut s, shown(PadId::One, "x")), Err("PadSet 'nope' not found".to_string()));
    assert_eq!(missing.pads(&s).err(), Some("PadSet 'nope' not found".to_string()));
}

#[test]
fn the_tour_adds_pads_and_dims_the_steps_done() {
    let t = TourState::new();
    let pads = t.padset(false);
    assert_eq!(pads.len(), 1);
    assert_eq!(pads[0].text, Some("Press '1' on\nnumeric keypad".to_string()));
    assert!(!pads[0].dimmed);
    let tags = t.tags(false);
    assert_eq!(tags.len(), 1);
    assert_eq!(tags[0].text, "Step 1/8");
    assert_eq!(tags[0].anchor, TagAnchor::NW);
}
