use merchant::keys::{convert_web_key_event, KeyCode};

#[test]
fn browser_named_keys() {
    assert_eq!(convert_web_key_event("Enter", false, false, false).code, KeyCode::Enter);
    assert_eq!(convert_web_key_event("Backspace", false, false, false).code, KeyCode::Backspace);
    assert_eq!(convert_web_key_event("Escape", false, false, false).code, KeyCode::Esc);
    assert_eq!(convert_web_key_event("ArrowLeft", false, false, false).code, KeyCode::Left);
    assert_eq!(convert_web_key_event("Insert", false, false, false).code, KeyCode::Insert);
}

#[test]
fn browser_characters_and_function_keys() {
    assert_eq!(convert_web_key_event("a", false, false, false).code, KeyCode::Char('a'));
    assert_eq!(convert_web_key_event("F", true, false, false).code, KeyCode::Char('F'));
    assert_eq!(convert_web_key_event("F5", false, false, false).code, KeyCode::F(5));
    assert_eq!(convert_web_key_event("F12", false, false, false).code, KeyCode::F(12));
    assert_eq!(convert_web_key_event("F+7", false, false, false).code, KeyCode::F(7));
    assert_eq!(convert_web_key_event("Fx", false, false, false).code, KeyCode::Null);
    assert_eq!(convert_web_key_event("F123", false, false, false).code, KeyCode::Null);
    assert_eq!(convert_web_key_event("é", false, false, false).code, KeyCode::Null);
    assert_eq!(convert_web_key_event("Shift", true, false, false).code, KeyCode::Null);
}

#[test]
fn browser_modifiers() {
    assert_eq!(convert_web_key_event("a", false, false, false).modifiers.bits, 0);
    assert_eq!(convert_web_key_event("a", true, false, false).modifiers.bits, 1);
    assert_eq!(convert_web_key_event("c", false, true, false).modifiers.bits, 2);
    assert_eq!(convert_web_key_event("c", true, true, true).modifiers.bits, 7);
}
