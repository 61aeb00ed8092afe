use lisca::shortcut_keys::{parse_shortcut, Code, Modifiers};

#[test]
fn ctrl_shift_letter() {
    let (mods, code) = parse_shortcut("Control+Shift+K").unwrap();
    assert!(mods.contains(Modifiers::control()));
    assert!(mods.contains(Modifiers::shift()));
    assert_eq!(code, Code::KeyK);
}

#[test]
fn alt_letter() {
    let (mods, code) = parse_shortcut("Alt+A").unwrap();
    assert!(mods.contains(Modifiers::alt()));
    assert_eq!(code, Code::KeyA);
}

#[test]
fn super_fkey() {
    let (mods, code) = parse_shortcut("Super+F1").unwrap();
    assert!(mods.contains(Modifiers::super_key()));
    assert_eq!(code, Code::F1);
}

#[test]
fn ctrl_abbr() {
    let (mods, code) = parse_shortcut("Ctrl+B").unwrap();
    assert!(mods.contains(Modifiers::control()));
    assert_eq!(code, Code::KeyB);
}

#[test]
fn space_key() {
    let (mods, code) = parse_shortcut("Control+SPACE").unwrap();
    assert!(mods.contains(Modifiers::control()));
    assert_eq!(code, Code::Space);
}

#[test]
fn digit_key() {
    let (mods, code) = parse_shortcut("Alt+5").unwrap();
    assert!(mods.contains(Modifiers::alt()));
    assert_eq!(code, Code::Digit5);
}

#[test]
fn lowercase_key_works() {
    let (_, code) = parse_shortcut("Control+k").unwrap();
    assert_eq!(code, Code::KeyK);
}

#[test]
fn empty_string_errors() {
    assert!(parse_shortcut("").is_err());
}

#[test]
fn modifier_only_errors() {
    assert!(parse_shortcut("Control").is_err());
}

#[test]
fn unknown_key_errors() {
    assert!(parse_shortcut("Control+Foo").is_err());
}

#[test]
fn meta_alias() {
    let (mods, _) = parse_shortcut("Meta+C").unwrap();
    assert!(mods.contains(Modifiers::super_key()));
}

#[test]
fn win_alias() {
    let (mods, _) = parse_shortcut("Win+C").unwrap();
    assert!(mods.contains(Modifiers::super_key()));
}

#[test]
fn cmd_alias() {
    let (mods, _) = parse_shortcut("Cmd+C").unwrap();
    assert!(mods.contains(Modifiers::super_key()));
}

#[test]
fn shortcut_key_error_messages() {
    assert_eq!(parse_shortcut("Control").unwrap_err(), "No key specified");
    assert_eq!(parse_shortcut("Control+Foo").unwrap_err(), "Unknown key: FOO");
}

#[test]
fn last_key_part_wins_and_modifiers_accumulate() {
    let (mods, code) = parse_shortcut("Q+Alt+Shift+f12").unwrap();
    assert_eq!(code, Code::F12);
    assert!(mods.contains(Modifiers::alt()));
    assert!(mods.contains(Modifiers::shift()));
    assert!(!mods.contains(Modifiers::control()));
}
