use merchant::commands::{
    Clear, ClearType, Frame, Hide, MoveDown, MoveLeft, MoveRight, MoveTo, MoveToNextLine, MoveUp,
    Print, Show,
};
use merchant::render_raw::render_raw;
use merchant::style::{style, Attribute};

#[test]
fn lib_test_frame() -> Result<(), String> {
    let mut frame = Frame::new();
    frame.render(&MoveTo(1, 1))?;
    frame.render(&Print("Hello, world!"))?;
    assert_eq!(frame.render_raw().result, "\n Hello, world!");
    Ok(())
}

#[test]
fn lib_test_underline() -> Result<(), String> {
    let mut frame = Frame::new();
    frame.render(&MoveTo(1, 1))?;
    frame.render(&Print(style("H").attribute(Attribute::Underlined)))?;
    frame.render(&Print("ello, world!"))?;
    assert_eq!(frame.render_raw().result, "\n Hello, world!");
    Ok(())
}

#[test]
fn render_raw_relative_moves_and_cursor() -> Result<(), String> {
    let mut frame = Frame::new();
    frame.render(&Print("1"))?;
    frame.render(&MoveTo(3, 3))?;
    frame.render(&Print("2"))?;
    frame.render(&MoveRight(1))?;
    frame.render(&Print("3"))?;
    frame.render(&MoveDown(2))?;
    frame.render(&Print("4"))?;
    frame.render(&MoveLeft(3))?;
    frame.render(&Print("5"))?;
    frame.render(&MoveUp(4))?;
    frame.render(&Print("6"))?;
    frame.render(&Hide)?;
    let r = render_raw(&frame);
    assert_eq!(r.result, "1\n     6\n\n   2 3\n\n    5 4");
    assert_eq!(r.cursor, (1, 6));
    assert!(!r.show_cursor);
    Ok(())
}

#[test]
fn render_raw_clear_and_next_line() -> Result<(), String> {
    let mut frame = Frame::new();
    frame.render(&Print("gone"))?;
    frame.render(&Clear(ClearType::All))?;
    frame.render(&MoveTo(2, 1))?;
    frame.render(&Print("Hello,"))?;
    frame.render(&MoveToNextLine(1))?;
    frame.render(&Print('w'))?;
    frame.render(&Print(String::from("orld!")))?;
    frame.render(&Show)?;
    let r = render_raw(&frame);
    assert_eq!(r.result, "\n  Hello,\nworld!");
    assert_eq!(r.cursor, (2, 6));
    assert!(r.show_cursor);
    Ok(())
}

#[test]
fn render_raw_empty_frame() {
    let frame = Frame::new();
    let r = render_raw(&frame);
    assert_eq!(r.result, "");
    assert_eq!(r.cursor, (0, 0));
    assert!(r.show_cursor);
}
