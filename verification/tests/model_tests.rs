use hotkeys::domain::data::{ColorScheme, TextStyle};
use hotkeys::model::data::{AnchorPin, Color, PadId, DT_CENTER, DT_LEFT, DT_RIGHT};

#[test]
fn pad_ids_follow_the_keypad() {
    for n in 1..=9 {
        let p = PadId::from_keypad_int(n);
        assert_eq!(p.as_keypad_int(), n);
        assert_eq!(p.row() * 3 + p.col() + 1, n);
        assert_eq!(p.to_string(), n.to_string());
    }
    assert_eq!(PadId::Five.row(), 1);
    assert_eq!(PadId::Five.col(), 1);
    assert_eq!(PadId::Three.up_to(), vec![PadId::One, PadId::Two, PadId::Three]);
    assert_eq!(PadId::all().len(), 9);
}

#[test]
fn anchor_pins_align_text() {
    assert_eq!(AnchorPin::NW.to_dt_flags(), DT_LEFT);
    assert_eq!(AnchorPin::S.to_dt_flags(), DT_CENTER);
    assert_eq!(AnchorPin::E.to_dt_flags(), DT_RIGHT);
}

#[test]
fn hex_colors_are_read_and_written() {
    assert_eq!(Color::from_hex("#FF8000"), Some(Color { r: 255, g: 128, b: 0 }));
    assert_eq!(Color::from_hex("0x0a0b0c"), Some(Color { r: 10, g: 11, b: 12 }));
    assert_eq!(Color::from_hex("123456"), Some(Color { r: 0x12, g: 0x34, b: 0x56 }));
    assert_eq!(Color::from_hex("#12345"), None);
    assert_eq!(Color::from_hex("#zz0000"), Some(Color { r: 0, g: 0, b: 0 }));
    assert_eq!(Color::from_hex("#+f0000"), Some(Color { r: 15, g: 0, b: 0 }));
    assert_eq!(Color::from_hex_or("bad", "#010203"), Some(Color { r: 1, g: 2, b: 3 }));
    let c = Color { r: 1, g: 171, b: 255 };
    assert_eq!(c.to_hex(), "#01abff");
    assert_eq!(Color::from_hex(&c.to_hex()), Some(c));
}

#[test]
fn hex_text_that_would_be_cut_apart_is_refused() {
    assert_eq!(Color::try_from_hex("a\u{e9}bcd"), None);
    assert_eq!(Color::try_from_hex("#00ff00"), Some(Some(Color { r: 0, g: 255, b: 0 })));
}

#[test]
fn colorref_and_inversion_round_trip() {
    let c = Color { r: 0x12, g: 0x34, b: 0x56 };
    assert_eq!(c.to_colorref(), 0x563412);
    assert_eq!(Color::from_colorref(c.to_colorref()), c);
    assert_eq!(Color::from_colorref(0xff563412), c);
    assert_eq!(c.inverted(), Color { r: 0xed, g: 0xcb, b: 0xa9 });
    assert_eq!(c.inverted().inverted(), c);
    assert_eq!(c.to_rgb(), (0x12, 0x34, 0x56));
}

#[test]
fn scheme_colors_fall_back_to_their_defaults() {
    let mut cs = ColorScheme::default();
    cs.background = "not a color".to_string();
    assert_eq!(cs.background(), Color { r: 0, g: 0, b: 0x7f });
    cs.background = "#102030".to_string();
    assert_eq!(cs.background(), Color { r: 0x10, g: 0x20, b: 0x30 });
    let inv = cs.inverted();
    assert_eq!(inv.name, "default (inverted)");
    assert_eq!(inv.background, "#efdfcf");
    cs.palette = vec!["#000000".to_string(), "x".to_string()];
    assert_eq!(cs.palette_color(0), Some(Color { r: 0, g: 0, b: 0 }));
    assert_eq!(cs.palette_color(1), None);
    assert_eq!(cs.palette_color(2), None);
    assert_eq!(cs.inverted().palette, vec!["#ffffff".to_string(), "#00ffff".to_string()]);
}

#[test]
fn fonts_are_parsed() {
    assert_eq!(
        TextStyle::parse_font("Comic Sans MS Bold 36"),
        ("Comic Sans MS".to_string(), true, false, 36)
    );
    assert_eq!(TextStyle::parse_font("Consolas italic BOLD 18"), ("Consolas".to_string(), true, true, 18));
    assert_eq!(TextStyle::parse_font(""), ("Arial".to_string(), false, false, 12));
    assert_eq!(TextStyle::parse_font("Arial"), ("Arial".to_string(), false, false, 12));
    assert_eq!(TextStyle::parse_font("Bold x"), ("Arial".to_string(), true, false, 12));
    assert_eq!(TextStyle::parse_font("  Mono   -3 "), ("Mono".to_string(), false, false, -3));
}

#[test]
fn palette_color_falls_back() {
    let mut cs = ColorScheme::default();
    cs.palette = vec!["#102030".to_string(), "x".to_string()];
    let red = Color { r: 255, g: 0, b: 0 };
    assert_eq!(cs.palette_color_or(0, red), Color { r: 0x10, g: 0x20, b: 0x30 });
    assert_eq!(cs.palette_color_or(1, red), red);
    assert_eq!(cs.palette_color_or(5, red), red);
}
