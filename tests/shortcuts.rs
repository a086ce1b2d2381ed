use egui_desktop::shortcuts::{InputSnapshot, Key, KeyboardShortcut, Modifiers, ShortcutParseError, ShortcutStates};

fn mods(ctrl: bool, alt: bool, shift: bool, command: bool) -> Modifiers {
    Modifiers { alt, ctrl, shift, command }
}

fn frame(keys: Vec<Key>, held: Modifiers) -> InputSnapshot {
    InputSnapshot { keys_pressed: keys, modifiers: held }
}

#[test]
fn parse_then_display_is_canonical() {
    let s = KeyboardShortcut::from_string("ctrl+shift+p").unwrap();
    assert_eq!(s.key, Key::P);
    assert_eq!(s.modifiers, mods(true, false, true, false));
    assert_eq!(s.display_string(), "Ctrl+Shift+P");
    let again = KeyboardShortcut::from_string(&s.display_string()).unwrap();
    assert_eq!(again, s);
}

#[test]
fn display_orders_modifiers() {
    let s = KeyboardShortcut::from_string("cmd+shift+alt+ctrl+x").unwrap();
    assert_eq!(s.display_string(), "Ctrl+Alt+Shift+Cmd+X");
}

#[test]
fn tokens_are_case_insensitive() {
    let s = KeyboardShortcut::from_string("CTRL+Shift+P").unwrap();
    assert_eq!(s, KeyboardShortcut::from_string("ctrl+shift+p").unwrap());
    assert_eq!(KeyboardShortcut::from_string("ALT+F4").unwrap().key, Key::F4);
}

#[test]
fn modifier_and_key_aliases() {
    let a = KeyboardShortcut::from_string("control+esc").unwrap();
    assert_eq!(a.key, Key::Escape);
    assert!(a.modifiers.ctrl);
    for text in ["cmd+s", "meta+s", "super+s"] {
        let s = KeyboardShortcut::from_string(text).unwrap();
        assert_eq!(s.modifiers, mods(false, false, false, true));
        assert_eq!(s.key, Key::S);
    }
    assert_eq!(KeyboardShortcut::from_string("pgup").unwrap().key, Key::PageUp);
    assert_eq!(KeyboardShortcut::from_string("return").unwrap().key, Key::Enter);
    assert_eq!(KeyboardShortcut::from_string("del").unwrap().key, Key::Delete);
    assert_eq!(KeyboardShortcut::from_string("plus").unwrap().key, Key::Equals);
    assert_eq!(KeyboardShortcut::from_string("=").unwrap().key, Key::Equals);
    assert_eq!(KeyboardShortcut::from_string("-").unwrap().key, Key::Minus);
    assert_eq!(KeyboardShortcut::from_string("7").unwrap().key, Key::Num7);
    assert_eq!(KeyboardShortcut::from_string("up").unwrap().key, Key::ArrowUp);
}

#[test]
fn key_names() {
    assert_eq!(Key::ArrowUp.name(), "Up");
    assert_eq!(Key::Num0.name(), "0");
    assert_eq!(Key::F12.name(), "F12");
    assert_eq!(Key::PageDown.name(), "PageDown");
    assert_eq!(KeyboardShortcut::from_string("ctrl+=").unwrap().display_string(), "Ctrl+Equals");
    assert_eq!(KeyboardShortcut::from_string("alt+-").unwrap().display_string(), "Alt+Minus");
}

#[test]
fn empty_text_is_malformed() {
    match KeyboardShortcut::from_string("") {
        Err(ShortcutParseError::InvalidFormat(t)) => assert_eq!(t, ""),
        other => panic!("unexpected {:?}", other),
    }
}

#[test]
fn unknown_modifier_is_reported_as_written() {
    match KeyboardShortcut::from_string("hyper+a") {
        Err(ShortcutParseError::InvalidModifier(t)) => assert_eq!(t, "hyper"),
        other => panic!("unexpected {:?}", other),
    }
    match KeyboardShortcut::from_string("ctrl+Hyper+a") {
        Err(ShortcutParseError::InvalidModifier(t)) => assert_eq!(t, "Hyper"),
        other => panic!("unexpected {:?}", other),
    }
    match KeyboardShortcut::from_string("+a") {
        Err(ShortcutParseError::InvalidModifier(t)) => assert_eq!(t, ""),
        other => panic!("unexpected {:?}", other),
    }
}

#[test]
fn unknown_key_is_reported_lower_cased() {
    match KeyboardShortcut::from_string("foobar") {
        Err(ShortcutParseError::InvalidKey(t)) => assert_eq!(t, "foobar"),
        other => panic!("unexpected {:?}", other),
    }
    match KeyboardShortcut::from_string("ctrl+FooBar") {
        Err(ShortcutParseError::InvalidKey(t)) => assert_eq!(t, "foobar"),
        other => panic!("unexpected {:?}", other),
    }
    match KeyboardShortcut::from_string("ctrl+") {
        Err(ShortcutParseError::InvalidKey(t)) => assert_eq!(t, ""),
        other => panic!("unexpected {:?}", other),
    }
    match KeyboardShortcut::from_string("f13") {
        Err(ShortcutParseError::InvalidKey(t)) => assert_eq!(t, "f13"),
        other => panic!("unexpected {:?}", other),
    }
}

#[test]
fn parse_of_valid_text() {
    let s = KeyboardShortcut::parse("alt+f4");
    assert_eq!(s.key, Key::F4);
    assert_eq!(s.modifiers, mods(false, true, false, false));
}

#[test]
fn new_has_no_modifiers() {
    let s = KeyboardShortcut::new(Key::T);
    assert_eq!(s.modifiers, Modifiers::none());
    assert_eq!(s.display_string(), "T");
}

#[test]
fn matches_is_exact() {
    let s = KeyboardShortcut::parse("ctrl+s");
    assert!(s.matches(Key::S, mods(true, false, false, false)));
    assert!(!s.matches(Key::S, mods(true, false, true, false)));
    assert!(!s.matches(Key::S, mods(false, false, false, true)));
    assert!(!s.matches(Key::A, mods(true, false, false, false)));
}

#[test]
fn just_pressed_fires_once_per_press() {
    let s = KeyboardShortcut::parse("ctrl+n");
    let mut states = ShortcutStates::new();
    let held = frame(vec![Key::N], mods(true, false, false, false));
    let idle = frame(vec![], mods(false, false, false, false));
    let seq = [&idle, &held, &held, &idle, &held];
    let answers: Vec<bool> = seq.iter().map(|f| s.just_pressed(&mut states, f)).collect();
    assert_eq!(answers, vec![false, true, false, false, true]);
    assert_eq!(answers.iter().filter(|a| **a).count(), 2);
}

#[test]
fn ctrl_shortcut_accepts_command() {
    let s = KeyboardShortcut::parse("ctrl+s");
    assert!(s.satisfied(&frame(vec![Key::S], mods(false, false, false, true))));
    assert!(s.satisfied(&frame(vec![Key::S], mods(true, false, false, false))));
    assert!(!s.satisfied(&frame(vec![Key::S], mods(false, false, false, false))));
    assert!(!s.satisfied(&frame(vec![Key::S], mods(true, true, false, false))));
}

#[test]
fn plain_shortcut_rejects_ctrl_and_command() {
    let s = KeyboardShortcut::parse("t");
    assert!(s.satisfied(&frame(vec![Key::T], mods(false, false, false, false))));
    assert!(!s.satisfied(&frame(vec![Key::T], mods(true, false, false, false))));
    assert!(!s.satisfied(&frame(vec![Key::T], mods(false, false, false, true))));
    assert!(!s.satisfied(&frame(vec![Key::T], mods(false, false, true, false))));
    assert!(!s.satisfied(&frame(vec![Key::R], mods(false, false, false, false))));
}

#[test]
fn equal_shortcuts_share_their_record() {
    let a = KeyboardShortcut::parse("ctrl+k");
    let b = KeyboardShortcut::parse("CTRL+K");
    let mut states = ShortcutStates::new();
    let held = frame(vec![Key::K], mods(true, false, false, false));
    assert!(a.just_pressed(&mut states, &held));
    assert!(!b.just_pressed(&mut states, &held));
}

#[test]
fn tokens_are_lowered_by_unicode_rules() {
    // the Kelvin sign lower-cases to the letter k
    let s = KeyboardShortcut::from_string("ctrl+\u{212A}").unwrap();
    assert_eq!(s.key, Key::K);
    let b = KeyboardShortcut::from_string("bac\u{212A}space").unwrap();
    assert_eq!(b.key, Key::Backspace);
    match KeyboardShortcut::from_string("ctrl+\u{c9}") {
        Err(ShortcutParseError::InvalidKey(t)) => assert_eq!(t, "\u{e9}"),
        other => panic!("unexpected {:?}", other),
    }
}
