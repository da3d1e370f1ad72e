use merchant::commands::{Commands, MoveTo, Print};
use merchant::components::{FrameType, SceneFrame, ScreenCenteredText};
use merchant::html::{render_to_html, HtmlRenderOutput};
use merchant::html_text::parse_html_to_raw_text;
use merchant::style::{Attribute, Color, Stylize};

fn assert_output(result: HtmlRenderOutput, html: &str, cursor: (u16, u16), show_cursor: bool) {
    assert_eq!(result.html, html);
    assert_eq!(result.cursor, cursor);
    assert_eq!(result.show_cursor, show_cursor);
}

#[test]
fn empty_frame() {
    let commands = Commands::new();
    let result = render_to_html(&commands);
    assert_output(result, "", (0, 0), false);
}

#[test]
fn hello_world() {
    let mut commands = Commands::new();
    commands.render(&Print("Hello, World!")).unwrap();
    let result = render_to_html(&commands);
    assert_output(
        result,
        "<span class=\"char\">H</span><span class=\"char\">e</span><span class=\"char\">l</span><span class=\"char\">l</span><span class=\"char\">o</span><span class=\"char\">,</span><span class=\"char\">&nbsp;</span><span class=\"char\">W</span><span class=\"char\">o</span><span class=\"char\">r</span><span class=\"char\">l</span><span class=\"char\">d</span><span class=\"char\">!</span>",
        (13, 0),
        false,
    );
}

#[test]
fn test_move_to() {
    let mut commands = Commands::new();
    commands.render(&MoveTo(5, 2)).unwrap();
    commands.render(&Print("X")).unwrap();
    commands.render(&MoveTo(4, 1)).unwrap();
    commands.render(&Print("Y")).unwrap();
    commands.render(&MoveTo(2, 2)).unwrap();
    commands.render(&Print("Z")).unwrap();
    let result = render_to_html(&commands);
    assert_output(
        result,
        "<br /><span class=\"char\">&nbsp;</span><span class=\"char\">&nbsp;</span><span class=\"char\">&nbsp;</span><span class=\"char\">&nbsp;</span><span class=\"char\">Y</span><br /><span class=\"char\">&nbsp;</span><span class=\"char\">&nbsp;</span><span class=\"char\">Z</span><span class=\"char\">&nbsp;</span><span class=\"char\">&nbsp;</span><span class=\"char\">X</span>",
        (3, 2),
        false,
    );
}

#[test]
fn test_styled_text() {
    let mut commands = Commands::new();
    commands.render(&Print("AB".to_string())).unwrap();
    commands.render(&Print(" ".to_string())).unwrap();
    commands.render(&Print("CD".to_string().attribute(Attribute::Bold))).unwrap();
    commands.render(&Print(" ".to_string())).unwrap();
    commands.render(&Print("EF".to_string().attribute(Attribute::Underlined))).unwrap();
    let result = render_to_html(&commands);
    assert_output(
        result,
        "<span class=\"char\">A</span><span class=\"char\">B</span><span class=\"char\">&nbsp;</span><span class=\"bold\"><span class=\"char\">C</span></span><span class=\"bold\"><span class=\"char\">D</span></span><span class=\"char\">&nbsp;</span><span class=\"underline\"><span class=\"char\">E</span></span><span class=\"underline\"><span class=\"char\">F</span></span>",
        (8, 0),
        false,
    );
}

#[test]
fn test_colored_text() {
    let mut commands = Commands::new();
    commands.render(&Print("AB".to_string().with(Color::Red))).unwrap();
    commands.render(&Print(" ".to_string())).unwrap();
    commands.render(&Print("CD".to_string().with(Color::Blue))).unwrap();
    let result = render_to_html(&commands);
    assert_output(
        result,
        "<span style=\"color: red\"><span class=\"char\">A</span></span><span style=\"color: red\"><span class=\"char\">B</span></span><span class=\"char\">&nbsp;</span><span style=\"color: #00f\"><span class=\"char\">C</span></span><span style=\"color: #00f\"><span class=\"char\">D</span></span>",
        (5, 0),
        false,
    );
}

#[test]
fn test_styled_and_colored_text() {
    let mut commands = Commands::new();
    commands.render(&Print("AB".to_string().attribute(Attribute::Bold).with(Color::Red).attribute(Attribute::Underlined))).unwrap();
    let result = render_to_html(&commands);
    assert_output(
        result,
        "<span class=\"bold underline\" style=\"color: red\"><span class=\"char\">A</span></span><span class=\"bold underline\" style=\"color: red\"><span class=\"char\">B</span></span>",
        (2, 0),
        false,
    );
}

#[test]
fn test_html_escaping() {
    let mut commands = Commands::new();
    commands.render(&Print("<script>alert('xss')</script>")).unwrap();
    let result = render_to_html(&commands);
    assert_output(
        result,
        "<span class=\"char\">&lt;</span><span class=\"char\">s</span><span class=\"char\">c</span><span class=\"char\">r</span><span class=\"char\">i</span><span class=\"char\">p</span><span class=\"char\">t</span><span class=\"char\">&gt;</span><span class=\"char\">a</span><span class=\"char\">l</span><span class=\"char\">e</span><span class=\"char\">r</span><span class=\"char\">t</span><span class=\"char\">(</span><span class=\"char\">&#39;</span><span class=\"char\">x</span><span class=\"char\">s</span><span class=\"char\">s</span><span class=\"char\">&#39;</span><span class=\"char\">)</span><span class=\"char\">&lt;</span><span class=\"char\">/</span><span class=\"char\">s</span><span class=\"char\">c</span><span class=\"char\">r</span><span class=\"char\">i</span><span class=\"char\">p</span><span class=\"char\">t</span><span class=\"char\">&gt;</span>",
        (29, 0),
        false,
    );
}

#[test]
fn component_test_frame() {
    let mut commands = Commands::new();
    let component = SceneFrame(FrameType::SimpleEmptyInside);
    commands.render(&component).unwrap();
    let result = render_to_html(&commands);
    assert_eq!(
        parse_html_to_raw_text(&result.html),
        r#"---------------------------------------------------------------------------------------------------
|                                                                                                 |
|                                                                                                 |
|                                                                                                 |
|                                                                                                 |
|                                                                                                 |
|                                                                                                 |
|                                                                                                 |
|                                                                                                 |
|                                                                                                 |
|                                                                                                 |
|                                                                                                 |
|                                                                                                 |
|                                                                                                 |
|                                                                                                 |
|                                                                                                 |
|                                                                                                 |
|                                                                                                 |
|                                                                                                 |
|                                                                                                 |
|                                                                                                 |
|                                                                                                 |
|                                                                                                 |
|                                                                                                 |
|                                                                                                 |
|                                                                                                 |
|                                                                                                 |
|                                                                                                 |
|                                                                                                 |
|                                                                                                 |
|                                                                                                 |
|                                                                                                 |
---------------------------------------------------------------------------------------------------"#,
    );
}

#[test]
fn component_test_screen_centered_text() {
    let mut commands = Commands::new();
    commands
        .render(&ScreenCenteredText::new(
            &["1---------2---------3---------4--------5--------6---------7---------".to_owned()],
            1,
        ))
        .unwrap();
    commands
        .render(&ScreenCenteredText::new(&["A tribute to Drug Wars by samgqroberts".to_owned()], 1))
        .unwrap();
    let result = render_to_html(&commands);
    assert_eq!(
        parse_html_to_raw_text(&result.html),
        r#"
                1---------2----A tribute to Drug Wars by samgqroberts-----7---------"#,
    );
}

#[test]
fn component_test_frame_plus_text() {
    let mut commands = Commands::new();
    let component = SceneFrame(FrameType::SimpleEmptyInside);
    let x = ScreenCenteredText::new(&["A tribute to Drug Wars by samgqroberts".to_owned()], 12);
    commands.render(&component).unwrap();
    commands.render(&x).unwrap();
    let result = render_to_html(&commands);
    assert_eq!(
        parse_html_to_raw_text(&result.html),
        r#"---------------------------------------------------------------------------------------------------
|                                                                                                 |
|                                                                                                 |
|                                                                                                 |
|                                                                                                 |
|                                                                                                 |
|                                                                                                 |
|                                                                                                 |
|                                                                                                 |
|                                                                                                 |
|                                                                                                 |
|                                                                                                 |
|                              A tribute to Drug Wars by samgqroberts                             |
|                                                                                                 |
|                                                                                                 |
|                                                                                                 |
|                                                                                                 |
|                                                                                                 |
|                                                                                                 |
|                                                                                                 |
|                                                                                                 |
|                                                                                                 |
|                                                                                                 |
|                                                                                                 |
|                                                                                                 |
|                                                                                                 |
|                                                                                                 |
|                                                                                                 |
|                                                                                                 |
|                                                                                                 |
|                                                                                                 |
|                                                                                                 |
---------------------------------------------------------------------------------------------------"#,
    );
}
