use clover_viewer::hotkey_parser::{parse_hotkey_str, parse_key_name, KeyName};
use clover_viewer::hotkeys::{
    binding_for_text, parsed_to_hotkey, rebind_screenshot, screenshot_binding, HotkeyBinding,
};

#[test]
fn parse_basic_combinations() {
    let h = parse_hotkey_str("Ctrl+Alt+S").unwrap();
    assert!(h.ctrl);
    assert!(h.alt);
    assert!(!h.shift);
    assert!(!h.cmd);
    assert_eq!(h.key_name, "S");

    let h = parse_hotkey_str("Cmd+Shift+F12").unwrap();
    assert!(!h.ctrl);
    assert!(!h.alt);
    assert!(h.shift);
    assert!(h.cmd);
    assert_eq!(h.key_name, "F12");
}

#[test]
fn parse_super_as_cmd() {
    let h = parse_hotkey_str("Super+X").unwrap();
    assert!(h.cmd);
    assert_eq!(h.key_name, "X");
}

#[test]
fn parse_single_key() {
    let h = parse_hotkey_str("F5").unwrap();
    assert!(!h.ctrl && !h.alt && !h.shift && !h.cmd);
    assert_eq!(h.key_name, "F5");
}

#[test]
fn reject_empty() {
    assert!(parse_hotkey_str("").is_none());
}

#[test]
fn reject_two_key_names() {
    assert!(parse_hotkey_str("Ctrl+A+B").is_none());
}

#[test]
fn reject_modifiers_only() {
    assert!(parse_hotkey_str("Ctrl+Alt").is_none());
}

#[test]
fn empty_piece_counts_as_key_name() {
    let h = parse_hotkey_str("Ctrl+").unwrap();
    assert!(h.ctrl);
    assert_eq!(h.key_name, "");
    assert!(parse_hotkey_str("+S").is_none());
}

#[test]
fn repeated_modifier_is_accepted() {
    let h = parse_hotkey_str("Alt+Alt+C").unwrap();
    assert!(h.alt && !h.ctrl);
    assert_eq!(h.key_name, "C");
}

#[test]
fn key_names_map_to_keys() {
    assert_eq!(parse_key_name("A"), Some(KeyName::Letter('A')));
    assert_eq!(parse_key_name("F12"), Some(KeyName::Function(12)));
    assert_eq!(parse_key_name("F1"), Some(KeyName::Function(1)));
    assert_eq!(parse_key_name("F10"), Some(KeyName::Function(10)));
    assert_eq!(parse_key_name("Space"), Some(KeyName::Space));
    assert_eq!(parse_key_name("Num0"), Some(KeyName::Digit(0)));
    assert_eq!(parse_key_name("Num9"), Some(KeyName::Digit(9)));
    assert_eq!(parse_key_name("Backspace"), Some(KeyName::Backspace));
    assert!(parse_key_name("UnknownKey").is_none());
    assert!(parse_key_name("a").is_none());
    assert!(parse_key_name("F13").is_none());
    assert!(parse_key_name("F0").is_none());
}

#[test]
fn parsed_to_hotkey_accepts_modifier_combinations() {
    let p = parse_hotkey_str("Ctrl+Alt+S").unwrap();
    assert!(parsed_to_hotkey(&p).is_some());

    let p = parse_hotkey_str("Cmd+Shift+F12").unwrap();
    assert!(parsed_to_hotkey(&p).is_some());
}

#[test]
fn parsed_to_hotkey_rejects_unknown_key_names() {
    let p = parse_hotkey_str("Ctrl+NoSuchKey").unwrap();
    assert!(parsed_to_hotkey(&p).is_none());

    assert!(parse_hotkey_str("").is_none());
}

#[test]
fn screenshot_binding_falls_back_to_alt_s() {
    let default = HotkeyBinding { ctrl: false, alt: true, shift: false, cmd: false, key: KeyName::Letter('S') };
    assert_eq!(screenshot_binding(""), default);
    assert_eq!(screenshot_binding("Ctrl+NoSuchKey"), default);
    assert_eq!(
        screenshot_binding("Ctrl+Shift+F2"),
        HotkeyBinding { ctrl: true, alt: false, shift: true, cmd: false, key: KeyName::Function(2) }
    );
}

#[test]
fn rebinding_keeps_the_current_hotkey_on_bad_text() {
    let current = screenshot_binding("Ctrl+Shift+F2");
    assert_eq!(rebind_screenshot(current, "Ctrl+NoSuchKey"), current);
    assert_eq!(rebind_screenshot(current, ""), current);
    let next = rebind_screenshot(current, "Alt+X");
    assert_eq!(next, HotkeyBinding { ctrl: false, alt: true, shift: false, cmd: false, key: KeyName::Letter('X') });
    assert_eq!(binding_for_text("Alt+X"), Some(next));
    assert_eq!(binding_for_text("Alt+"), None);
}

#[test]
fn written_hotkeys_read_back() {
    let h = parse_hotkey_str("Ctrl+Alt+Shift+Cmd+F5").unwrap();
    assert!(h.ctrl && h.alt && h.shift && h.cmd);
    assert_eq!(h.key_name, "F5");
    let h = parse_hotkey_str("Shift+Num3").unwrap();
    assert!(!h.ctrl && !h.alt && h.shift && !h.cmd);
    assert_eq!(h.key_name, "Num3");
    let h = parse_hotkey_str("Q").unwrap();
    assert!(!h.ctrl && !h.alt && !h.shift && !h.cmd);
    assert_eq!(h.key_name, "Q");
}
