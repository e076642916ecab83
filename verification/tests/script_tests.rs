use hotkeys::input::keys::vkey::{VK_1, VK_A, VK_ALT, VK_B, VK_CTRL, VK_K, VK_SHIFT};
use hotkeys::input::keys::ModifierState;
use hotkeys::input::script::{
    for_line, for_pause, for_shortcut, for_text, map_character_key, parse_shortcut_expression,
    scan_shortcut_expression, CharKey, CharKeys, Token,
};
use hotkeys::input::steps::{InputStep, KeyInput, KeyInputs, NoInput};

fn no_mods() -> ModifierState {
    ModifierState { ctrl: false, shift: false, alt: false, super_key: false }
}

fn shift() -> ModifierState {
    ModifierState { ctrl: false, shift: true, alt: false, super_key: false }
}

/// A small US-like layout: lower case letters, upper case letters with shift,
/// digits, the space, and the single quote on VK_OEM_2.
fn layout() -> CharKeys {
    let mut entries = Vec::new();
    for (i, c) in ('a'..='z').enumerate() {
        entries.push(CharKey { ch: c, vk_code: 0x41 + i as u16, modifiers: no_mods() });
    }
    for (i, c) in ('A'..='Z').enumerate() {
        entries.push(CharKey { ch: c, vk_code: 0x41 + i as u16, modifiers: shift() });
    }
    for (i, c) in ('0'..='9').enumerate() {
        entries.push(CharKey { ch: c, vk_code: 0x30 + i as u16, modifiers: no_mods() });
    }
    entries.push(CharKey { ch: ' ', vk_code: 0x20, modifiers: no_mods() });
    entries.push(CharKey { ch: '\'', vk_code: 0xBF, modifiers: no_mods() });
    entries.push(CharKey { ch: '!', vk_code: 0x31, modifiers: shift() });
    CharKeys::new(entries)
}

fn key(step: &InputStep) -> KeyInput {
    match step {
        InputStep::Key(k) => *k,
        other => panic!("expected a key step, got {:?}", other),
    }
}

fn keys(step: &InputStep) -> &KeyInputs {
    match step {
        InputStep::Keys(k) => k,
        other => panic!("expected a key group step, got {:?}", other),
    }
}

#[test]
fn test_shortcut() {
    let script = for_shortcut("Ctrl Shift A".to_string(), &layout());

    assert_eq!(script.steps.len(), 6);

    assert_eq!(key(&script.steps[0]), KeyInput { vk_code: VK_CTRL, key_down: true });
    assert_eq!(key(&script.steps[1]), KeyInput { vk_code: VK_SHIFT, key_down: true });
    assert_eq!(key(&script.steps[2]), KeyInput { vk_code: VK_A, key_down: true });

    assert_eq!(key(&script.steps[3]), KeyInput { vk_code: VK_A, key_down: false });
    assert_eq!(key(&script.steps[4]), KeyInput { vk_code: VK_SHIFT, key_down: false });
    assert_eq!(key(&script.steps[5]), KeyInput { vk_code: VK_CTRL, key_down: false });
}

#[test]
fn test_shortcurt_chord() {
    let script = for_shortcut("Ctrl K + Ctrl B".to_string(), &layout());

    assert_eq!(script.steps.len(), 8);

    assert_eq!(key(&script.steps[0]), KeyInput { vk_code: VK_CTRL, key_down: true });
    assert_eq!(key(&script.steps[1]), KeyInput { vk_code: VK_K, key_down: true });
    assert_eq!(key(&script.steps[2]), KeyInput { vk_code: VK_K, key_down: false });
    assert_eq!(key(&script.steps[3]), KeyInput { vk_code: VK_CTRL, key_down: false });

    assert_eq!(key(&script.steps[4]), KeyInput { vk_code: VK_CTRL, key_down: true });
    assert_eq!(key(&script.steps[5]), KeyInput { vk_code: VK_B, key_down: true });
    assert_eq!(key(&script.steps[6]), KeyInput { vk_code: VK_B, key_down: false });
    assert_eq!(key(&script.steps[7]), KeyInput { vk_code: VK_CTRL, key_down: false });
}

#[test]
fn test_text() {
    let script = for_text("abK".to_string(), &layout());

    assert_eq!(script.steps.len(), 3);
    assert_eq!(keys(&script.steps[0]).inputs.len(), 2);
    assert_eq!(keys(&script.steps[0]).inputs[0], KeyInput { vk_code: VK_A, key_down: true });
    assert_eq!(keys(&script.steps[0]).inputs[1], KeyInput { vk_code: VK_A, key_down: false });

    assert_eq!(keys(&script.steps[1]).inputs.len(), 2);
    assert_eq!(keys(&script.steps[1]).inputs[0], KeyInput { vk_code: VK_B, key_down: true });
    assert_eq!(keys(&script.steps[1]).inputs[1], KeyInput { vk_code: VK_B, key_down: false });

    assert_eq!(keys(&script.steps[2]).inputs.len(), 4);
    assert_eq!(keys(&script.steps[2]).inputs[0], KeyInput { vk_code: VK_SHIFT, key_down: true });
    assert_eq!(keys(&script.steps[2]).inputs[1], KeyInput { vk_code: VK_K, key_down: true });
    assert_eq!(keys(&script.steps[2]).inputs[2], KeyInput { vk_code: VK_K, key_down: false });
    assert_eq!(keys(&script.steps[2]).inputs[3], KeyInput { vk_code: VK_SHIFT, key_down: false });
}

#[test]
fn test_scan_basic_tokens() {
    let tokens = scan_shortcut_expression("ctrl a");
    assert_eq!(tokens.len(), 2);

    match &tokens[0] {
        Token::WORD(w) => assert_eq!(w, "ctrl"),
        _ => panic!("Expected WORD token"),
    }

    match &tokens[1] {
        Token::CHAR(c) => assert_eq!(c, "a"),
        _ => panic!("Expected CHAR token"),
    }
}

#[test]
fn test_scan_plus_token() {
    let tokens = scan_shortcut_expression("ctrl + shift");
    assert_eq!(tokens.len(), 3);

    match &tokens[0] {
        Token::WORD(w) => assert_eq!(w, "ctrl"),
        _ => panic!("Expected WORD token"),
    }

    match &tokens[1] {
        Token::PLUS => {}
        _ => panic!("Expected PLUS token"),
    }

    match &tokens[2] {
        Token::WORD(w) => assert_eq!(w, "shift"),
        _ => panic!("Expected WORD token"),
    }
}

#[test]
fn test_scan_quoted_plus() {
    let tokens = scan_shortcut_expression("'+'");
    assert_eq!(tokens.len(), 1);

    match &tokens[0] {
        Token::QUOTED(q) => assert_eq!(q, "+"),
        _ => panic!("Expected QUOTED token"),
    }
}

#[test]
fn test_scan_mixed_tokens() {
    let tokens = scan_shortcut_expression("Ctrl Shift 'a' + F1");
    assert_eq!(tokens.len(), 5);

    match &tokens[0] {
        Token::WORD(w) => assert_eq!(w, "ctrl"),
        _ => panic!("Expected WORD token for Ctrl"),
    }

    match &tokens[1] {
        Token::WORD(w) => assert_eq!(w, "shift"),
        _ => panic!("Expected WORD token for Shift"),
    }

    match &tokens[2] {
        Token::QUOTED(q) => assert_eq!(q, "a"),
        _ => panic!("Expected QUOTED token for 'a'"),
    }

    match &tokens[3] {
        Token::PLUS => {}
        _ => panic!("Expected PLUS token"),
    }

    match &tokens[4] {
        Token::WORD(w) => assert_eq!(w, "f1"),
        _ => panic!("Expected WORD token for F1"),
    }
}

#[test]
fn test_scan_empty_string() {
    let tokens = scan_shortcut_expression("");
    assert_eq!(tokens.len(), 0);
}

#[test]
fn test_scan_spaces_only() {
    let tokens = scan_shortcut_expression("   ");
    assert_eq!(tokens.len(), 0);
}

#[test]
fn test_parse_single_combination() {
    let combinations = parse_shortcut_expression("ctrl a", &layout());
    assert_eq!(combinations.len(), 1);
    assert_eq!(combinations[0].keys.len(), 2);
    assert_eq!(combinations[0].keys[0], VK_CTRL);
    assert_eq!(combinations[0].keys[1], VK_A);
}

#[test]
fn test_parse_chord_combination() {
    let combinations = parse_shortcut_expression("ctrl k + ctrl b", &layout());
    assert_eq!(combinations.len(), 2);

    assert_eq!(combinations[0].keys.len(), 2);
    assert_eq!(combinations[0].keys[0], VK_CTRL);
    assert_eq!(combinations[0].keys[1], VK_K);

    assert_eq!(combinations[1].keys.len(), 2);
    assert_eq!(combinations[1].keys[0], VK_CTRL);
    assert_eq!(combinations[1].keys[1], VK_B);
}

#[test]
fn test_parse_multiple_modifiers() {
    let combinations = parse_shortcut_expression("ctrl shift alt a", &layout());
    assert_eq!(combinations.len(), 1);
    assert_eq!(combinations[0].keys.len(), 4);
    assert_eq!(combinations[0].keys[0], VK_CTRL);
    assert_eq!(combinations[0].keys[1], VK_SHIFT);
    assert_eq!(combinations[0].keys[2], VK_ALT);
    assert_eq!(combinations[0].keys[3], VK_A);
}

#[test]
fn test_parse_empty_string() {
    let combinations = parse_shortcut_expression("", &layout());
    assert_eq!(combinations.len(), 0);
}

#[test]
fn test_parse_quoted_characters() {
    let combinations = parse_shortcut_expression("'a' + 'b'", &layout());
    assert_eq!(combinations.len(), 2);
    assert_eq!(combinations[0].keys.len(), 1);
    assert_eq!(combinations[0].keys[0], VK_A);
    assert_eq!(combinations[1].keys.len(), 1);
    assert_eq!(combinations[1].keys[0], VK_B);
}

#[test]
fn test_ctrl_singlequote() {
    let combinations = parse_shortcut_expression("Ctrl '", &layout());
    assert_eq!(combinations.len(), 1);
    assert_eq!(combinations[0].keys.len(), 2);
    assert_eq!(combinations[0].keys[0], VK_CTRL);
    assert_eq!(combinations[0].keys[1], 0xBF);
}

#[test]
fn test_map_character_key_with_shift() {
    let inputs = map_character_key(VK_A, &shift());

    assert_eq!(inputs.len(), 4);
    assert_eq!(inputs[0], KeyInput { vk_code: VK_SHIFT, key_down: true });
    assert_eq!(inputs[1], KeyInput { vk_code: VK_A, key_down: true });
    assert_eq!(inputs[2], KeyInput { vk_code: VK_A, key_down: false });
    assert_eq!(inputs[3], KeyInput { vk_code: VK_SHIFT, key_down: false });
}

#[test]
fn test_map_character_key_shift_sequence() {
    let inputs = map_character_key(VK_1, &shift());

    assert_eq!(inputs.len(), 4);
    assert_eq!(inputs[0], KeyInput { vk_code: VK_SHIFT, key_down: true });
    assert_eq!(inputs[1], KeyInput { vk_code: VK_1, key_down: true });
    assert_eq!(inputs[2], KeyInput { vk_code: VK_1, key_down: false });
    assert_eq!(inputs[3], KeyInput { vk_code: VK_SHIFT, key_down: false });
}

#[test]
fn map_character_key_without_modifiers_is_press_and_release() {
    let inputs = map_character_key(VK_B, &no_mods());
    assert_eq!(
        inputs,
        vec![KeyInput { vk_code: VK_B, key_down: true }, KeyInput { vk_code: VK_B, key_down: false }]
    );
}

#[test]
fn pause_script_is_one_pause_step() {
    let script = for_pause(250);
    assert_eq!(script.steps, vec![InputStep::Pause(NoInput { pause: 250 })]);
}

#[test]
fn line_script_ends_with_enter() {
    let script = for_line("a".to_string(), &layout());
    assert_eq!(script.steps.len(), 2);
    assert_eq!(keys(&script.steps[0]).inputs[0], KeyInput { vk_code: VK_A, key_down: true });
    let last = keys(&script.steps[1]);
    assert_eq!(last.inputs[0], KeyInput { vk_code: 0x0D, key_down: true });
    assert_eq!(last.inputs[1], KeyInput { vk_code: 0x0D, key_down: false });
}

#[test]
fn text_with_unknown_character_skips_it() {
    let script = for_text("a\u{e9}b".to_string(), &layout());
    assert_eq!(script.steps.len(), 2);
    assert_eq!(keys(&script.steps[1]).inputs[0], KeyInput { vk_code: VK_B, key_down: true });
}

#[test]
fn shortcut_with_f1_word() {
    let combinations = parse_shortcut_expression("alt f1", &layout());
    assert_eq!(combinations.len(), 1);
    assert_eq!(combinations[0].keys, vec![VK_ALT, 0x70]);
}

#[test]
fn shortcut_case_and_extra_spaces_do_not_matter() {
    let l = layout();
    let expected = parse_shortcut_expression("ctrl alt p", &l);
    assert_eq!(expected.len(), 1);
    assert_eq!(expected[0].keys.len(), 3);
    for text in ["Ctrl Alt P", "CTRL ALT P", "ctrl alt 'P'", "cTrL aLt  P", "  ctrl   alt p  "] {
        assert_eq!(parse_shortcut_expression(text, &l), expected, "{}", text);
    }
    assert_eq!(
        parse_shortcut_expression("Ctrl K + Ctrl B", &l),
        parse_shortcut_expression("ctrl  k  +  ctrl b", &l)
    );
}

fn layout_with_signs() -> CharKeys {
    let mut l = layout();
    l.entries.push(CharKey { ch: '-', vk_code: 0xBD, modifiers: no_mods() });
    l.entries.push(CharKey { ch: '+', vk_code: 0xBB, modifiers: shift() });
    l
}

#[test]
fn shortcuts_ignore_case_spaces_and_quotes() {
    let l = layout();
    let expected = for_shortcut("ctrl alt p".to_string(), &l);
    for text in ["Ctrl Alt P", "CTRL ALT P", "ctrl alt 'P'", "cTrL aLt  P"] {
        assert_eq!(for_shortcut(text.to_string(), &l), expected, "{}", text);
    }
}

#[test]
fn quoting_a_sign_does_not_matter() {
    let l = layout_with_signs();
    assert_eq!(
        for_shortcut("Ctrl Shift '-' + Ctrl Shift '+'".to_string(), &l),
        for_shortcut("Ctrl Shift - + Ctrl Shift '+'".to_string(), &l)
    );
}
