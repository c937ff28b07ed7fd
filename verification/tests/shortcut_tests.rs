//! Parsing hotkey binding strings.

use voice_input::shortcuts::{parse_shortcut, KeyCode, Modifiers};

#[test]
fn test_parse_default_binding() {
    let sc = parse_shortcut("Ctrl+Space").unwrap();
    assert_eq!(
        sc.modifiers,
        Modifiers { control: true, alt: false, shift: false, meta: false }
    );
    assert_eq!(sc.code, KeyCode::Space);
}

#[test]
fn test_parse_letter_binding() {
    let sc = parse_shortcut("Alt+R").unwrap();
    assert_eq!(sc.modifiers, Modifiers { control: false, alt: true, shift: false, meta: false });
    assert_eq!(sc.code, KeyCode::KeyR);
}

#[test]
fn test_parse_case_and_spacing_insensitive() {
    let sc = parse_shortcut(" ctrl + shift + Semicolon ").unwrap();
    assert!(sc.modifiers.control && sc.modifiers.shift);
    assert_eq!(sc.code, KeyCode::Semicolon);

    let sc = parse_shortcut("CONTROL+space").unwrap();
    assert!(sc.modifiers.control);
    assert_eq!(sc.code, KeyCode::Space);
}

#[test]
fn test_parse_all_modifier_spellings() {
    for name in ["Super", "Win", "Cmd", "Meta"] {
        let sc = parse_shortcut(&format!("{}+F5", name)).unwrap();
        assert!(sc.modifiers.meta);
        assert_eq!(sc.code, KeyCode::F5);
    }
}

#[test]
fn test_parse_digits_and_numpad() {
    assert_eq!(parse_shortcut("Ctrl+7").unwrap().code, KeyCode::Digit7);
    assert_eq!(parse_shortcut("Numpad3").unwrap().code, KeyCode::Numpad3);
    assert_eq!(parse_shortcut("NumpadAdd").unwrap().code, KeyCode::NumpadAdd);
}

#[test]
fn test_parse_last_key_wins() {
    // Two keys in one binding: the later one stands, as a fold over the
    // parts.
    let sc = parse_shortcut("Ctrl+A+B").unwrap();
    assert_eq!(sc.code, KeyCode::KeyB);
}

#[test]
fn test_parse_unknown_key_message() {
    let err = parse_shortcut("Ctrl+Bogus").unwrap_err();
    assert_eq!(err, "Unknown key: Bogus");
}

#[test]
fn test_parse_unknown_character_message() {
    let err = parse_shortcut("Ctrl+?").unwrap_err();
    assert_eq!(err, "Unknown character: ?");
}

#[test]
fn test_parse_no_key_specified() {
    let err = parse_shortcut("Ctrl+Shift").unwrap_err();
    assert_eq!(err, "No key specified");
}
