use mission_capture::error::PipelineError;
use mission_capture::shortcut::{
    format_key_for_code, key_code_for, parse_shortcut, read_shortcut_tokens, shortcut_or_default, ModifierSet,
};

#[test]
fn single_letters_get_the_key_prefix() {
    assert_eq!(format_key_for_code(" m "), "KeyM");
    assert_eq!(format_key_for_code("Q"), "KeyQ");
}

#[test]
fn other_keys_are_upper_cased_only() {
    assert_eq!(format_key_for_code("f5"), "F5");
    assert_eq!(format_key_for_code("space"), "SPACE");
    assert_eq!(format_key_for_code("1"), "1");
}

#[test]
fn default_shortcut_parses() {
    let p = parse_shortcut("Ctrl+Shift+M").unwrap();
    assert_eq!(p.modifiers, ModifierSet { control: true, shift: true, alt: false, super_key: false });
    assert_eq!(p.key, "KeyM");
}

#[test]
fn modifier_aliases_and_spaces() {
    let p = parse_shortcut(" cmd + Alt + control + f2 ").unwrap();
    assert_eq!(p.modifiers, ModifierSet { control: true, shift: false, alt: true, super_key: true });
    assert_eq!(p.key, "F2");
}

#[test]
fn last_key_wins() {
    let p = parse_shortcut("A+Win+B").unwrap();
    assert_eq!(p.key, "KeyB");
    assert!(p.modifiers.super_key);
}

#[test]
fn shortcut_without_key_is_invalid() {
    assert_eq!(parse_shortcut("Ctrl+Shift").unwrap_err(), PipelineError::InvalidShortcutConfig);
}

#[test]
fn configured_shortcut_or_default() {
    assert_eq!(shortcut_or_default(None), "Ctrl+Shift+M");
    assert_eq!(shortcut_or_default(Some("Alt+K".to_string())), "Alt+K");
}

#[test]
fn key_code_for_takes_normalized_names() {
    assert_eq!(key_code_for("M"), "KeyM");
    assert_eq!(key_code_for("z"), "Keyz");
    assert_eq!(key_code_for("F5"), "F5");
    assert_eq!(key_code_for(""), "");
}

#[test]
fn read_shortcut_tokens_reads_modifiers_and_key() {
    let tokens: Vec<String> = ["CTRL", "WIN", "ALT", "SHIFT", "Q"].iter().map(|s| s.to_string()).collect();
    let p = read_shortcut_tokens(&tokens).unwrap();
    assert_eq!(p.modifiers, ModifierSet { control: true, shift: true, alt: true, super_key: true });
    assert_eq!(p.key, "KeyQ");
    // tokens are compared as given: lower-case names are keys, not modifiers
    let lower: Vec<String> = ["ctrl"].iter().map(|s| s.to_string()).collect();
    let q = read_shortcut_tokens(&lower).unwrap();
    assert_eq!(q.modifiers, ModifierSet { control: false, shift: false, alt: false, super_key: false });
    assert_eq!(q.key, "ctrl");
    let none: Vec<String> = ["COMMAND"].iter().map(|s| s.to_string()).collect();
    assert_eq!(read_shortcut_tokens(&none).unwrap_err(), PipelineError::InvalidShortcutConfig);
}

#[test]
fn unicode_white_space_is_trimmed() {
    assert_eq!(format_key_for_code("\u{3000}m\u{a0}"), "KeyM");
}
