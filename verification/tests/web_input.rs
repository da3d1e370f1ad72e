use merchant::web_input::{
    font_size_step, game_takes_key, is_mobile_user_agent, DisplayFit, FontStep, KeyListener, PageAction,
    PageInput, DEFAULT_FONT_SIZE, MAX_FONT_SIZE, MIN_FONT_SIZE,
};

fn pressed(action: &PageAction) -> Option<String> {
    match action {
        PageAction::Press(k) => Some(k.clone()),
        PageAction::Ignore => None,
    }
}

#[test]
fn phones_and_tablets_are_recognised() {
    assert!(is_mobile_user_agent(
        "Mozilla/5.0 (iPhone; CPU iPhone OS 17_0 like Mac OS X) Mobile/15E148"
    ));
    assert!(is_mobile_user_agent("Mozilla/5.0 (Linux; Android 14)"));
    assert!(is_mobile_user_agent("Mozilla/5.0 (iPad; CPU OS 16_0)"));
    assert!(is_mobile_user_agent("iPod"));
    assert!(!is_mobile_user_agent("Mozilla/5.0 (X11; Linux x86_64) Firefox/120.0"));
    assert!(!is_mobile_user_agent(""));
    assert!(!is_mobile_user_agent("iPa"));
    assert!(!is_mobile_user_agent("mobile"));
}

#[test]
fn a_named_key_goes_to_the_game_and_is_remembered() {
    let s = KeyListener::new().step(PageInput::KeyDown { key: "Enter".to_string(), now_ms: 1000 });
    assert_eq!(pressed(&s.action), Some("Enter".to_string()));
    assert_eq!(s.listener.last_keydown_ms, Some(1000));
    assert!(s.clear_field);
}

#[test]
fn an_unidentified_key_is_ignored() {
    let l = KeyListener { last_keydown_ms: Some(7) };
    let s = l.step(PageInput::KeyDown { key: "Unidentified".to_string(), now_ms: 1000 });
    assert_eq!(pressed(&s.action), None);
    assert_eq!(s.listener.last_keydown_ms, Some(7));
    assert!(!s.clear_field);
    let s = KeyListener::new().step(PageInput::KeyDown { key: "Unidentifie".to_string(), now_ms: 5 });
    assert_eq!(pressed(&s.action), Some("Unidentifie".to_string()));
}

#[test]
fn a_field_change_right_after_a_key_press_is_the_same_key() {
    let s = KeyListener::new().step(PageInput::KeyDown { key: "b".to_string(), now_ms: 1000 });
    let s = s.listener.step(PageInput::FieldChanged { value: "b".to_string(), now_ms: 1049 });
    assert_eq!(pressed(&s.action), None);
    assert_eq!(s.listener.last_keydown_ms, None);
    assert!(s.clear_field);
}

#[test]
fn a_later_field_change_types_its_last_character() {
    let l = KeyListener { last_keydown_ms: Some(1000) };
    let s = l.step(PageInput::FieldChanged { value: "xy7".to_string(), now_ms: 1050 });
    assert_eq!(pressed(&s.action), Some("7".to_string()));
    assert_eq!(s.listener.last_keydown_ms, Some(1000));
    assert!(s.clear_field);
    let s = KeyListener::new().step(PageInput::FieldChanged { value: "q".to_string(), now_ms: 3 });
    assert_eq!(pressed(&s.action), Some("q".to_string()));
}

#[test]
fn an_empty_field_does_nothing() {
    let s = KeyListener::new().step(PageInput::FieldChanged { value: String::new(), now_ms: 3 });
    assert_eq!(pressed(&s.action), None);
    assert!(!s.clear_field);
}

#[test]
fn a_clock_that_went_back_counts_as_a_repeat() {
    let l = KeyListener { last_keydown_ms: Some(1000) };
    let s = l.step(PageInput::FieldChanged { value: "z".to_string(), now_ms: 10 });
    assert_eq!(pressed(&s.action), None);
    assert_eq!(s.listener.last_keydown_ms, None);
}

#[test]
fn browser_shortcuts_are_left_to_the_browser() {
    assert!(game_takes_key(false, false));
    assert!(!game_takes_key(true, false));
    assert!(!game_takes_key(false, true));
    assert!(!game_takes_key(true, true));
}

#[test]
fn a_game_too_wide_shrinks_the_font_down_to_the_smallest() {
    assert_eq!(font_size_step(DEFAULT_FONT_SIZE, false, DisplayFit::TooWide), (FontStep::Resize(13), true));
    assert_eq!(font_size_step(7, true, DisplayFit::TooWide), (FontStep::Resize(6), true));
    assert_eq!(font_size_step(MIN_FONT_SIZE, true, DisplayFit::TooWide), (FontStep::Stop, true));
    assert_eq!(font_size_step(MIN_FONT_SIZE, false, DisplayFit::TooWide), (FontStep::Stop, false));
}

#[test]
fn a_narrow_game_grows_the_font_until_the_largest_or_a_shrink() {
    assert_eq!(font_size_step(DEFAULT_FONT_SIZE, false, DisplayFit::Narrower), (FontStep::Resize(15), false));
    assert_eq!(font_size_step(MAX_FONT_SIZE, false, DisplayFit::Narrower), (FontStep::Stop, false));
    assert_eq!(font_size_step(10, true, DisplayFit::Narrower), (FontStep::Stop, true));
    assert_eq!(font_size_step(10, false, DisplayFit::Exact), (FontStep::Stop, false));
}

#[test]
fn fitting_a_wide_window_then_a_narrow_one_ends() {
    // grows while the game is narrower, then one shrink ends any growing
    let mut size = DEFAULT_FONT_SIZE;
    let mut tried_down = false;
    let fits = [DisplayFit::Narrower, DisplayFit::Narrower, DisplayFit::TooWide, DisplayFit::Narrower];
    let mut steps = Vec::new();
    for fit in fits {
        let (step, t) = font_size_step(size, tried_down, fit);
        tried_down = t;
        steps.push(step);
        if let FontStep::Resize(n) = step {
            size = n;
        } else {
            break;
        }
    }
    assert_eq!(steps, vec![FontStep::Resize(15), FontStep::Resize(16), FontStep::Resize(15), FontStep::Stop]);
    assert_eq!(size, 15);
}
