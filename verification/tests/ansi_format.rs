use crossterm::cursor::{MoveDown, MoveLeft, MoveRight, MoveTo, MoveToNextLine, MoveUp};
use crossterm::style::{style, Attribute, Color, Print, PrintStyledContent, Stylize};
use crossterm::terminal::{Clear, ClearType};
use crossterm::Command;
use merchant::ansi_format::{raw_format_ansi, raw_format_tokens, tokenize_ansi, try_raw_format_ansi, AnsiToken};

/// Appends what a terminal command writes.
fn put(out: &mut String, command: impl Command) {
    command.write_ansi(out).unwrap();
}

#[test]
fn test_tokenize_ansi() {
    let mut fake = String::new();
    put(&mut fake, MoveTo(1, 5));
    put(&mut fake, Print("hi"));
    put(&mut fake, MoveToNextLine(2));
    put(&mut fake, Print("bye"));
    let tokens = tokenize_ansi(&fake).unwrap();
    assert_eq!(
        tokens,
        vec![
            AnsiToken::CursorPos(6, 2),
            AnsiToken::TextBlock("hi".to_string()),
            AnsiToken::CursorDown(2),
            AnsiToken::CursorBackward(999999999),
            AnsiToken::TextBlock("bye".to_string()),
        ]
    );
}

#[test]
fn lib_basic() {
    let mut fake = String::new();
    put(&mut fake, Clear(ClearType::All));
    put(&mut fake, PrintStyledContent("First line.".with(Color::Green).on(Color::Red).attribute(Attribute::Bold)));
    put(&mut fake, MoveTo(5, 1));
    put(
        &mut fake,
        PrintStyledContent("Indented second line.".with(Color::Blue).on(Color::White).attribute(Attribute::NoBold)),
    );
    put(&mut fake, MoveToNextLine(2));
    put(&mut fake, PrintStyledContent("Third line after blank line.".with(Color::White)));
    let stripped = raw_format_ansi(&fake);
    assert_eq!(stripped, "First line.\n     Indented second line.\n\nThird line after blank line.".to_owned());
}

#[test]
fn skipping_line_with_move_to() {
    let mut fake = String::new();
    put(&mut fake, Clear(ClearType::All));
    put(&mut fake, MoveTo(0, 0));
    put(&mut fake, PrintStyledContent("First line.".with(Color::Green)));
    put(&mut fake, MoveTo(0, 2));
    put(&mut fake, PrintStyledContent("Skipped line.".with(Color::Blue)));
    let stripped = raw_format_ansi(&fake);
    assert_eq!(stripped, "First line.\n\nSkipped line.".to_owned());
}

#[test]
fn relative_moves() {
    let mut fake = String::new();
    put(&mut fake, Print("1"));
    put(&mut fake, MoveTo(3, 3));
    put(&mut fake, Print("2"));
    put(&mut fake, MoveRight(1));
    put(&mut fake, Print("3"));
    put(&mut fake, MoveDown(2));
    put(&mut fake, Print("4"));
    put(&mut fake, MoveLeft(3));
    put(&mut fake, Print("5"));
    put(&mut fake, MoveUp(4));
    put(&mut fake, Print("6"));
    let stripped = raw_format_ansi(&fake);
    assert_eq!(
        stripped,
        r#"1
     6

   2 3

    5 4"#
    );
}

#[test]
fn text_with_underline() {
    let mut fake = String::new();
    put(&mut fake, Print("1"));
    put(&mut fake, Print(style("2").attribute(Attribute::Underlined)));
    put(&mut fake, Print("3"));
    let stripped = raw_format_ansi(&fake);
    assert_eq!(stripped, "123");
}

#[test]
fn unicode() {
    let mut writer = String::new();
    put(&mut writer, Print("╔╗╚╝"));
    put(&mut writer, Print('┼'));
    put(&mut writer, MoveLeft(2));
    put(&mut writer, Print('┉'));
    put(&mut writer, MoveRight(2));
    put(&mut writer, Print('╿'));
    assert_eq!(raw_format_ansi(&writer), "╔╗╚┉┼ ╿");
}

#[test]
fn documented_examples() {
    assert_eq!(raw_format_ansi("\u{1b}[4CHello"), "    Hello".to_owned());
    assert_eq!(raw_format_ansi("\u{1b}[4CHello\u{1b}[3;2HWorld"), "    Hello\n\n World".to_owned());
    assert_eq!(raw_format_ansi("\u{1b}[4CHello\u{1b}[3;2HWorld\u{1b}[1;5HJ"), "    Jello\n\n World".to_owned());
}

#[test]
fn empty_text_formats_to_nothing() {
    assert_eq!(raw_format_ansi(""), "");
    assert_eq!(tokenize_ansi(""), Some(vec![]));
}

#[test]
fn unreadable_line_count_is_refused() {
    assert_eq!(try_raw_format_ansi("a\u{1b}[99999999999Eb"), None);
    assert_eq!(try_raw_format_ansi("a\u{1b}[2Eb"), Some("a\n\nb".to_string()));
}

#[test]
fn moves_stop_at_the_first_row_and_column() {
    let tokens = vec![
        AnsiToken::CursorUp(5),
        AnsiToken::CursorBackward(3),
        AnsiToken::TextBlock("x".to_string()),
        AnsiToken::CursorPos(0, 0),
        AnsiToken::TextBlock("y".to_string()),
        AnsiToken::SetGraphicsMode,
        AnsiToken::OtherEscape,
    ];
    assert_eq!(raw_format_tokens(&tokens), "y");
}

#[test]
fn repaired_tokens_hold_no_style_changes() {
    let mut fake = String::new();
    put(&mut fake, PrintStyledContent("bold".attribute(Attribute::Bold)));
    put(&mut fake, MoveToNextLine(1));
    put(&mut fake, Print("x"));
    let tokens = tokenize_ansi(&fake).unwrap();
    assert!(!tokens.contains(&AnsiToken::SetGraphicsMode));
    assert!(tokens.iter().all(|t| match t {
        AnsiToken::TextBlock(s) => !s.is_empty() && !s.contains('\u{1b}'),
        _ => true,
    }));
    assert_eq!(raw_format_ansi(&fake), "bold\nx");
}
