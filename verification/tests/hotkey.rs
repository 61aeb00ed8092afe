use lisca::hotkey::{parse_shortcut, shortcut_from_saved, ParseError, ShortcutConfig};

#[test]
fn parse_control_shift_k() {
    let config = parse_shortcut("Control+Shift+K").unwrap();
    assert_eq!(config.modifiers, vec!["Control", "Shift"]);
    assert_eq!(config.key, "K");
}

#[test]
fn parse_alt_a() {
    let config = parse_shortcut("Alt+A").unwrap();
    assert_eq!(config.modifiers, vec!["Alt"]);
    assert_eq!(config.key, "A");
}

#[test]
fn parse_super_space() {
    let config = parse_shortcut("Super+Space").unwrap();
    assert_eq!(config.modifiers, vec!["Super"]);
    assert_eq!(config.key, "Space");
}

#[test]
fn parse_empty_returns_error() {
    assert!(matches!(parse_shortcut(""), Err(ParseError::EmptyInput)));
}

#[test]
fn parse_whitespace_only_returns_error() {
    assert!(matches!(parse_shortcut("   "), Err(ParseError::EmptyInput)));
}

#[test]
fn parse_modifier_only_returns_error() {
    assert!(matches!(parse_shortcut("Control"), Err(ParseError::NoKey)));
}

#[test]
fn parse_two_modifiers_no_key() {
    assert!(matches!(parse_shortcut("Control+Shift"), Err(ParseError::NoKey)));
}

#[test]
fn parse_invalid_modifier() {
    let result = parse_shortcut("Invalid+K");
    assert!(result.is_err());
}

#[test]
fn parse_case_sensitive() {
    assert!(parse_shortcut("control+K").is_err());
    assert!(parse_shortcut("Control+K").is_ok());
}

#[test]
fn roundtrip_to_string() {
    let config = parse_shortcut("Control+Shift+K").unwrap();
    assert_eq!(config.to_string_repr(), "Control+Shift+K");
}

#[test]
fn parse_trims_parts_and_input() {
    let config = parse_shortcut("  Control + Alt +  X ").unwrap();
    assert_eq!(config.modifiers, vec!["Control", "Alt"]);
    assert_eq!(config.key, "X");
}

#[test]
fn parse_trailing_plus_has_no_key() {
    assert!(matches!(parse_shortcut("Control+"), Err(ParseError::NoKey)));
    assert!(matches!(parse_shortcut("Control+ "), Err(ParseError::NoKey)));
}

#[test]
fn parse_error_messages() {
    assert_eq!(ParseError::EmptyInput.to_string(), "shortcut string is empty");
    assert_eq!(ParseError::NoKey.to_string(), "no key specified (only modifiers)");
}

#[test]
fn written_shortcut_parses_back() {
    let config = ShortcutConfig::new(
        vec!["Alt".to_string(), "Command".to_string()],
        "F5".to_string(),
    );
    let text = config.to_string_repr();
    assert_eq!(text, "Alt+Command+F5");
    assert_eq!(parse_shortcut(&text).unwrap(), config);
}

#[test]
fn saved_shortcut_is_read_back() {
    let config = ShortcutConfig::new(
        vec!["Control".to_string(), "Shift".to_string()],
        "K".to_string(),
    );
    let saved = format!("{}\n", config.to_string_repr());
    assert_eq!(shortcut_from_saved(&saved), Some(config));
    assert_eq!(shortcut_from_saved(""), None);
    assert_eq!(shortcut_from_saved("  \n"), None);
    assert_eq!(shortcut_from_saved("Control"), None);
}

#[test]
fn saved_shortcut_tolerates_surrounding_whitespace() {
    let config = shortcut_from_saved("  Control+Alt+R\n").unwrap();
    assert_eq!(config.modifiers, vec!["Control", "Alt"]);
    assert_eq!(config.key, "R");
    assert_eq!(shortcut_from_saved("   \n"), None);
    assert_eq!(shortcut_from_saved("Control"), None);
}

#[test]
fn saved_shortcut_without_key_is_refused() {
    assert_eq!(shortcut_from_saved("Control+"), None);
    let config = parse_shortcut("Control+Shift+K").unwrap();
    assert_eq!(shortcut_from_saved(&config.to_string_repr()), Some(config));
}
