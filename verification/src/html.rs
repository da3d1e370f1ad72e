use vstd::prelude::*;

use crate::commands::{printable_text, Cmd, Frame, Printable};
use crate::style::{bits_have, is_plain_style, Attribute, Color, ContentStyle, StyledContent};
use crate::text::{
    char_to_string, concat_all, decimal, join_strings, joined, push_decimal, push_str, str_chars,
    string_views,
};

verus! {

/// The HTML rendering of a frame: the markup, where the cursor ended up
/// (column, then row), and whether it is shown.
#[derive(Debug)]
pub struct HtmlRenderOutput {
    pub html: String,
    pub cursor: (u16, u16),
    pub show_cursor: bool,
}

/// How a character is written in HTML: markup characters as entities, a
/// space as a non-breaking space, a newline as a line break.
pub open spec fn html_entity(c: char) -> Seq<char> {
    if c == '<' {
        "&lt;"@
    } else if c == '>' {
        "&gt;"@
    } else if c == '&' {
        "&amp;"@
    } else if c == '"' {
        "&quot;"@
    } else if c == '\'' {
        "&#39;"@
    } else if c == ' ' {
        "&nbsp;"@
    } else if c == '\n' {
        "<br />"@
    } else {
        seq![c]
    }
}

/// Text escaped for HTML, each character in a span of class `char` (which
/// keeps every character one cell wide).
pub open spec fn escaped(t: Seq<char>) -> Seq<char>
    decreases t.len(),
{
    if t.len() == 0 {
        Seq::empty()
    } else {
        escaped(t.drop_last()) + "<span class=\"char\">"@ + html_entity(t.last()) + "</span>"@
    }
}

/// The CSS value of a color.
pub open spec fn css_color(c: Color) -> Seq<char> {
    match c {
        Color::Reset => "inherit"@,
        Color::Black => "black"@,
        Color::DarkGrey => "#555"@,
        Color::Red => "red"@,
        Color::DarkRed => "#800"@,
        Color::Green => "lime"@,
        Color::DarkGreen => "green"@,
        Color::Yellow => "yellow"@,
        Color::DarkYellow => "#880"@,
        Color::Blue => "#00f"@,
        Color::DarkBlue => "#008"@,
        Color::Magenta => "magenta"@,
        Color::DarkMagenta => "#808"@,
        Color::Cyan => "cyan"@,
        Color::DarkCyan => "#088"@,
        Color::White => "white"@,
        Color::Grey => "#aaa"@,
        Color::Rgb { r, g, b } => "rgb("@ + decimal(r as nat) + ", "@ + decimal(g as nat) + ", "@ + decimal(
            b as nat,
        ) + ")"@,
        Color::AnsiValue(v) => "color-"@ + decimal(v as nat),
    }
}

/// The CSS classes of a style: `bold`, then `underline`, for the attributes it has.
pub open spec fn style_classes(st: ContentStyle) -> Seq<Seq<char>> {
    (if bits_have(st.attributes@, Attribute::Bold) { seq!["bold"@] } else { Seq::empty() }) + (if bits_have(
        st.attributes@,
        Attribute::Underlined,
    ) {
        seq!["underline"@]
    } else {
        Seq::empty()
    })
}

/// One CSS declaration for an optional color.
pub open spec fn color_declaration(prop: Seq<char>, c: Option<Color>) -> Seq<Seq<char>> {
    match c {
        Some(c) => seq![prop + css_color(c)],
        None => Seq::empty(),
    }
}

/// The inline CSS declarations of a style: its foreground, background and underline colors.
pub open spec fn style_declarations(st: ContentStyle) -> Seq<Seq<char>> {
    color_declaration("color: "@, st.foreground_color) + color_declaration(
        "background-color: "@,
        st.background_color,
    ) + color_declaration("text-decoration-color: "@, st.underline_color)
}

/// Content in a span carrying the style's classes and declarations; bare
/// content for a style with neither.
pub open spec fn span_html(st: ContentStyle, content: Seq<char>) -> Seq<char> {
    let classes = style_classes(st);
    let decls = style_declarations(st);
    if classes.len() == 0 && decls.len() == 0 {
        content
    } else {
        let attrs = (if classes.len() > 0 {
            seq!["class=\""@ + joined(classes, " "@) + "\""@]
        } else {
            Seq::empty()
        }) + (if decls.len() > 0 {
            seq!["style=\""@ + joined(decls, "; "@) + "\""@]
        } else {
            Seq::empty()
        });
        "<span "@ + joined(attrs, " "@) + ">"@ + content + "</span>"@
    }
}

/// The HTML of a printable: its escaped text, in a span for its style if it has one.
pub open spec fn printable_html(p: Printable) -> Seq<char> {
    match p {
        Printable::StyledContent(sc) => span_html(sc.style, escaped(sc.content@)),
        _ => escaped(printable_text(p)),
    }
}

/// Escapes text for HTML; see [escaped].
pub fn escape_html(text: &str) -> (r: String)
    ensures
        r@ == escaped(text@),
{
    let chars = str_chars(text);
    let mut r = String::new();
    let mut i: usize = 0;
    while i < chars.len()
        invariant
            chars@ == text@,
            i <= chars@.len(),
            r@ == escaped(text@.take(i as int)),
        decreases chars@.len() - i,
    {
        let c = chars[i];
        push_str(&mut r, "<span class=\"char\">");
        if c == '<' {
            push_str(&mut r, "&lt;");
        } else if c == '>' {
            push_str(&mut r, "&gt;");
        } else if c == '&' {
            push_str(&mut r, "&amp;");
        } else if c == '"' {
            push_str(&mut r, "&quot;");
        } else if c == '\'' {
            push_str(&mut r, "&#39;");
        } else if c == ' ' {
            push_str(&mut r, "&nbsp;");
        } else if c == '\n' {
            push_str(&mut r, "<br />");
        } else {
            let one = char_to_string(c);
            push_str(&mut r, one.as_str());
        }
        push_str(&mut r, "</span>");
        proof {
            assert(text@.take(i + 1).drop_last() =~= text@.take(i as int));
            assert(text@.take(i + 1).last() == c);
        }
        i = i + 1;
    }
    assert(text@.take(chars@.len() as int) =~= text@);
    r
}

/// The CSS value of a color; see [css_color].
pub fn color_to_css(color: Color) -> (r: String)
    ensures
        r@ == css_color(color),
{
    let mut r = String::new();
    match color {
        Color::Reset => push_str(&mut r, "inherit"),
        Color::Black => push_str(&mut r, "black"),
        Color::DarkGrey => push_str(&mut r, "#555"),
        Color::Red => push_str(&mut r, "red"),
        Color::DarkRed => push_str(&mut r, "#800"),
        Color::Green => push_str(&mut r, "lime"),
        Color::DarkGreen => push_str(&mut r, "green"),
        Color::Yellow => push_str(&mut r, "yellow"),
        Color::DarkYellow => push_str(&mut r, "#880"),
        Color::Blue => push_str(&mut r, "#00f"),
        Color::DarkBlue => push_str(&mut r, "#008"),
        Color::Magenta => push_str(&mut r, "magenta"),
        Color::DarkMagenta => push_str(&mut r, "#808"),
        Color::Cyan => push_str(&mut r, "cyan"),
        Color::DarkCyan => push_str(&mut r, "#088"),
        Color::White => push_str(&mut r, "white"),
        Color::Grey => push_str(&mut r, "#aaa"),
        Color::Rgb { r: red, g, b } => {
            push_str(&mut r, "rgb(");
            push_decimal(&mut r, red as u64);
            push_str(&mut r, ", ");
            push_decimal(&mut r, g as u64);
            push_str(&mut r, ", ");
            push_decimal(&mut r, b as u64);
            push_str(&mut r, ")");
        },
        Color::AnsiValue(v) => {
            push_str(&mut r, "color-");
            push_decimal(&mut r, v as u64);
        },
    }
    assert(r@ =~= css_color(color));
    r
}

/// Appends a CSS declaration for an optional color.
fn push_color_declaration(decls: &mut Vec<String>, prop: &str, c: Option<Color>)
    ensures
        string_views(final(decls)@) == string_views(old(decls)@) + color_declaration(prop@, c),
{
    let ghost before = string_views(decls@);
    if let Some(c) = c {
        let mut d = String::new();
        push_str(&mut d, prop);
        let css = color_to_css(c);
        push_str(&mut d, css.as_str());
        decls.push(d);
        assert(string_views(decls@) =~= before + color_declaration(prop@, Some(c)));
    } else {
        assert(string_views(decls@) =~= before + color_declaration(prop@, c));
    }
}

/// The HTML of styled content; see [span_html].
fn styled_html(st: ContentStyle, content: String) -> (r: String)
    ensures
        r@ == span_html(st, content@),
{
    let mut classes: Vec<String> = Vec::new();
    if st.attributes.has(Attribute::Bold) {
        classes.push("bold".to_string());
    }
    if st.attributes.has(Attribute::Underlined) {
        classes.push("underline".to_string());
    }
    assert(string_views(classes@) =~= style_classes(st));
    let mut decls: Vec<String> = Vec::new();
    assert(string_views(decls@) =~= Seq::<Seq<char>>::empty());
    push_color_declaration(&mut decls, "color: ", st.foreground_color);
    push_color_declaration(&mut decls, "background-color: ", st.background_color);
    push_color_declaration(&mut decls, "text-decoration-color: ", st.underline_color);
    assert(string_views(decls@) =~= style_declarations(st));
    if classes.len() == 0 && decls.len() == 0 {
        return content;
    }
    let mut attrs: Vec<String> = Vec::new();
    if classes.len() > 0 {
        let mut a = String::new();
        push_str(&mut a, "class=\"");
        let j = join_strings(&classes, " ");
        push_str(&mut a, j.as_str());
        push_str(&mut a, "\"");
        attrs.push(a);
    }
    if decls.len() > 0 {
        let mut a = String::new();
        push_str(&mut a, "style=\"");
        let j = join_strings(&decls, "; ");
        push_str(&mut a, j.as_str());
        push_str(&mut a, "\"");
        attrs.push(a);
    }
    proof {
        let classes_v = style_classes(st);
        let decls_v = style_declarations(st);
        let expected = (if classes_v.len() > 0 {
            seq!["class=\""@ + joined(classes_v, " "@) + "\""@]
        } else {
            Seq::empty()
        }) + (if decls_v.len() > 0 {
            seq!["style=\""@ + joined(decls_v, "; "@) + "\""@]
        } else {
            Seq::empty()
        });
        assert(string_views(attrs@) =~= expected);
    }
    let mut r = String::new();
    push_str(&mut r, "<span ");
    let j = join_strings(&attrs, " ");
    push_str(&mut r, j.as_str());
    push_str(&mut r, ">");
    push_str(&mut r, content.as_str());
    push_str(&mut r, "</span>");
    r
}

/// Content with no style needs no span.
pub proof fn lemma_plain_span(st: ContentStyle, content: Seq<char>)
    requires
        is_plain_style(st),
    ensures
        span_html(st, content) == content,
{
    assert(0u32 & 4u32 == 0u32) by (bit_vector);
    assert(0u32 & 2u32 == 0u32) by (bit_vector);
    assert(style_classes(st) =~= Seq::<Seq<char>>::empty());
    assert(style_declarations(st) =~= Seq::<Seq<char>>::empty());
}

/// The HTML of a printable; see [printable_html].
pub fn render_printable_to_html(printable: &Printable) -> (r: String)
    ensures
        r@ == printable_html(*printable),
{
    match printable {
        Printable::String(s) => escape_html(s.as_str()),
        Printable::Char(c) => {
            let one = char_to_string(*c);
            escape_html(one.as_str())
        },
        Printable::StyledContent(styled) => {
            let content = escape_html(styled.content.as_str());
            styled_html(styled.style, content)
        },
    }
}


/// The screen while commands are emulated for HTML: each line a sequence of
/// cells (the HTML of one character), the cursor's column and row, and
/// whether the cursor is shown.
pub struct HtmlScreen {
    pub lines: Seq<Seq<Seq<char>>>,
    pub x: int,
    pub y: int,
    pub show: bool,
}

/// The cell that fills a gap: an unstyled space.
pub open spec fn pad_cell() -> Seq<char> {
    escaped(seq![' '])
}

/// A line padded with gap cells up to `n` cells.
pub open spec fn pad_cells(line: Seq<Seq<char>>, n: int) -> Seq<Seq<char>> {
    if line.len() < n {
        line + Seq::new((n - line.len()) as nat, |i: int| pad_cell())
    } else {
        line
    }
}

/// A line with `cell` put at column `x` (padded with gap cells before it).
pub open spec fn put_cell(line: Seq<Seq<char>>, x: int, cell: Seq<char>) -> Seq<Seq<char>> {
    pad_cells(line, x + 1).update(x, cell)
}

/// A line with `cells` put one after the other from column `x` on.
pub open spec fn print_cells(line: Seq<Seq<char>>, x: int, cells: Seq<Seq<char>>) -> Seq<Seq<char>>
    decreases cells.len(),
{
    if cells.len() == 0 {
        line
    } else {
        put_cell(print_cells(line, x, cells.drop_last()), x + cells.len() - 1, cells.last())
    }
}

/// The cell of one character of a printable, in the printable's style.
pub open spec fn cell_html(p: Printable, c: char) -> Seq<char> {
    match p {
        Printable::StyledContent(sc) => span_html(sc.style, escaped(seq![c])),
        _ => escaped(seq![c]),
    }
}

/// The cells of a printable's characters.
pub open spec fn printable_cells(p: Printable) -> Seq<Seq<char>> {
    Seq::new(printable_text(p).len(), |i: int| cell_html(p, printable_text(p)[i]))
}

/// Lines added, empty, until there are at least `n`.
pub open spec fn extend_lines(lines: Seq<Seq<Seq<char>>>, n: int) -> Seq<Seq<Seq<char>>> {
    if lines.len() < n {
        lines + Seq::new((n - lines.len()) as nat, |i: int| Seq::<Seq<char>>::empty())
    } else {
        lines
    }
}

/// The screen before any command: one empty line, the cursor at the origin, hidden.
pub open spec fn html_start() -> HtmlScreen {
    HtmlScreen { lines: seq![Seq::<Seq<char>>::empty()], x: 0, y: 0, show: false }
}

/// Whether a command can be emulated: the line under the cursor exists where
/// it is written to, and the cursor stays within `u16` (and the number of
/// lines below it).
pub open spec fn html_step_ok(s: HtmlScreen, c: Cmd) -> bool {
    match c {
        Cmd::MoveTo(x, y) => x == 0 || y > s.y || y < s.lines.len(),
        Cmd::MoveDown(d) => s.y + d < u16::MAX && s.lines.len() < u16::MAX,
        Cmd::MoveRight(d) => s.x + d <= u16::MAX,
        Cmd::MoveToNextLine(n) => s.y + n <= u16::MAX,
        Cmd::Print(p) => printable_text(p).len() == 0 || (s.y < s.lines.len() && s.x + printable_text(p).len()
            <= u16::MAX),
        _ => true,
    }
}

/// The screen after one command: moves up and left stop at the edge, moves
/// to a row or down add the lines needed, and printing writes cells from the
/// cursor on.
pub open spec fn html_step(s: HtmlScreen, c: Cmd) -> HtmlScreen {
    match c {
        Cmd::ClearScreen => HtmlScreen { lines: seq![Seq::<Seq<char>>::empty()], x: 0, y: 0, show: s.show },
        Cmd::MoveTo(x, y) => {
            let l1 = if y > s.y { extend_lines(s.lines, y + 1) } else { s.lines };
            let l2 = if x > 0 { l1.update(y as int, pad_cells(l1[y as int], x as int)) } else { l1 };
            HtmlScreen { lines: l2, x: x as int, y: y as int, show: s.show }
        },
        Cmd::MoveUp(d) => HtmlScreen { y: if s.y >= d { s.y - d } else { 0 }, ..s },
        Cmd::MoveDown(d) => HtmlScreen { lines: extend_lines(s.lines, s.y + d + 1), y: s.y + d, ..s },
        Cmd::MoveLeft(d) => HtmlScreen { x: if s.x >= d { s.x - d } else { 0 }, ..s },
        Cmd::MoveRight(d) => HtmlScreen { x: s.x + d, ..s },
        Cmd::HideCursor => HtmlScreen { show: false, ..s },
        Cmd::ShowCursor => HtmlScreen { show: true, ..s },
        Cmd::MoveToNextLine(n) => HtmlScreen {
            lines: if n > 0 { extend_lines(s.lines, s.y + n) } else { s.lines },
            x: 0,
            y: s.y + n,
            show: s.show,
        },
        Cmd::Print(p) => {
            let cells = printable_cells(p);
            if cells.len() == 0 {
                s
            } else {
                HtmlScreen {
                    lines: s.lines.update(s.y, print_cells(s.lines[s.y], s.x, cells)),
                    x: s.x + cells.len(),
                    ..s
                }
            }
        },
    }
}

/// The screen after all the commands, in order.
pub open spec fn html_run(cmds: Seq<Cmd>) -> HtmlScreen
    decreases cmds.len(),
{
    if cmds.len() == 0 {
        html_start()
    } else {
        html_step(html_run(cmds.drop_last()), cmds.last())
    }
}

/// Whether every command can be emulated on the screen its predecessors left.
pub open spec fn html_ok(cmds: Seq<Cmd>) -> bool
    decreases cmds.len(),
{
    if cmds.len() == 0 {
        true
    } else {
        html_ok(cmds.drop_last()) && html_step_ok(html_run(cmds.drop_last()), cmds.last())
    }
}

/// The HTML of the screen: each line's cells one after the other, lines
/// separated by line breaks.
pub open spec fn lines_html(lines: Seq<Seq<Seq<char>>>) -> Seq<char> {
    joined(lines.map_values(|l: Seq<Seq<char>>| concat_all(l)), "<br />"@)
}

/// Whether an HTML rendering is the one of a sequence of commands.
pub open spec fn is_html_rendering(cmds: Seq<Cmd>, r: HtmlRenderOutput) -> bool {
    let s = html_run(cmds);
    &&& r.html@ == lines_html(s.lines)
    &&& r.cursor == (s.x as u16, s.y as u16)
    &&& r.show_cursor == s.show
}

/// The cells of some lines of cell strings.
pub open spec fn cell_lines(v: Seq<Vec<String>>) -> Seq<Seq<Seq<char>>> {
    v.map_values(|l: Vec<String>| string_views(l@))
}

/// Adds empty lines until there are at least `n`.
fn extend_to(lines: &mut Vec<Vec<String>>, n: usize)
    ensures
        cell_lines(final(lines)@) == extend_lines(cell_lines(old(lines)@), n as int),
{
    let ghost l0 = cell_lines(lines@);
    while lines.len() < n
        invariant
            l0.len() <= cell_lines(lines@).len() <= (if l0.len() < n { n as int } else { l0.len() as int }),
            cell_lines(lines@) == l0 + Seq::new((cell_lines(lines@).len() - l0.len()) as nat, |i: int| Seq::<Seq<char>>::empty()),
        decreases n - lines@.len(),
    {
        let ghost before = cell_lines(lines@);
        let empty: Vec<String> = Vec::new();
        lines.push(empty);
        assert(string_views(empty@) =~= Seq::<Seq<char>>::empty());
        assert(cell_lines(lines@) =~= before.push(Seq::<Seq<char>>::empty()));
        assert(cell_lines(lines@) =~~= l0 + Seq::new((cell_lines(lines@).len() - l0.len()) as nat, |i: int| Seq::<Seq<char>>::empty()));
    }
    assert(cell_lines(lines@) =~~= extend_lines(l0, n as int));
}

/// The gap cell.
fn make_pad_cell() -> (r: String)
    ensures
        r@ == pad_cell(),
{
    proof {
        reveal_strlit(" ");
    }
    let r = escape_html(" ");
    assert(" "@ =~= seq![' ']);
    r
}

/// Pads a line with gap cells up to `n` cells.
fn pad_line(line: &mut Vec<String>, n: usize)
    ensures
        string_views(final(line)@) == pad_cells(string_views(old(line)@), n as int),
{
    let ghost l0 = string_views(line@);
    while line.len() < n
        invariant
            l0.len() <= string_views(line@).len() <= (if l0.len() < n { n as int } else { l0.len() as int }),
            string_views(line@) == l0 + Seq::new((string_views(line@).len() - l0.len()) as nat, |i: int| pad_cell()),
        decreases n - line@.len(),
    {
        let ghost before = string_views(line@);
        let cell = make_pad_cell();
        line.push(cell);
        assert(string_views(line@) =~= before.push(pad_cell()));
        assert(string_views(line@) =~= l0 + Seq::new((string_views(line@).len() - l0.len()) as nat, |i: int| pad_cell()));
    }
    assert(string_views(line@) =~= pad_cells(l0, n as int));
}

/// Puts cells one after the other from column `x` on; see [print_cells].
fn print_into(line: &mut Vec<String>, x: usize, cells: Vec<String>)
    requires
        x + cells@.len() <= usize::MAX,
    ensures
        string_views(final(line)@) == print_cells(string_views(old(line)@), x as int, string_views(cells@)),
{
    let ghost l0 = string_views(line@);
    let ghost cv = string_views(cells@);
    let mut k: usize = 0;
    while k < cells.len()
        invariant
            x + cells@.len() <= usize::MAX,
            k <= cells@.len(),
            cv == string_views(cells@),
            string_views(line@) == print_cells(l0, x as int, cv.take(k as int)),
        decreases cells@.len() - k,
    {
        pad_line(line, x + k + 1);
        assert(line@.len() == string_views(line@).len());
        let cell = cells[k].clone();
        line.set(x + k, cell);
        proof {
            assert(cv.take(k + 1).drop_last() =~= cv.take(k as int));
            assert(cv.take(k + 1).last() == cells@[k as int]@);
            assert(string_views(line@) =~= put_cell(print_cells(l0, x as int, cv.take(k as int)), x + k, cells@[k as int]@));
        }
        k = k + 1;
    }
    assert(cv.take(cells@.len() as int) =~= cv);
}

/// The cells of a printable's characters; see [printable_cells].
fn cells_of(printable: &Printable) -> (r: Vec<String>)
    ensures
        string_views(r@) == printable_cells(*printable),
{
    let text = printable.raw_text();
    let chars = str_chars(text.as_str());
    let mut r: Vec<String> = Vec::new();
    let mut i: usize = 0;
    while i < chars.len()
        invariant
            chars@ == printable_text(*printable),
            i <= chars@.len(),
            string_views(r@) == printable_cells(*printable).take(i as int),
        decreases chars@.len() - i,
    {
        let c = chars[i];
        let one = char_to_string(c);
        let cell = match printable {
            Printable::StyledContent(styled) => styled_html(styled.style, escape_html(one.as_str())),
            _ => escape_html(one.as_str()),
        };
        let ghost before = string_views(r@);
        assert(cell@ == cell_html(*printable, printable_text(*printable)[i as int]));
        r.push(cell);
        assert(string_views(r@) =~= before.push(cell@));
        assert(printable_cells(*printable).take(i + 1) =~= printable_cells(*printable).take(i as int).push(cell@));
        assert(string_views(r@) =~= printable_cells(*printable).take(i + 1));
        i = i + 1;
    }
    assert(printable_cells(*printable).take(chars@.len() as int) =~= printable_cells(*printable));
    r
}

/// The HTML of lines of cells; see [lines_html].
fn lines_to_html(lines: &Vec<Vec<String>>) -> (r: String)
    ensures
        r@ == lines_html(cell_lines(lines@)),
{
    let ghost all = cell_lines(lines@).map_values(|l: Seq<Seq<char>>| concat_all(l));
    let mut r = String::new();
    let mut i: usize = 0;
    while i < lines.len()
        invariant
            i <= lines@.len(),
            all == cell_lines(lines@).map_values(|l: Seq<Seq<char>>| concat_all(l)),
            r@ == joined(all.take(i as int), "<br />"@),
        decreases lines@.len() - i,
    {
        if i > 0 {
            push_str(&mut r, "<br />");
        }
        let ghost r1 = r@;
        let line = &lines[i];
        let mut j: usize = 0;
        while j < line.len()
            invariant
                j <= line@.len(),
                r@ == r1 + concat_all(string_views(line@).take(j as int)),
            decreases line@.len() - j,
        {
            push_str(&mut r, line[j].as_str());
            assert(string_views(line@).take(j + 1).drop_last() =~= string_views(line@).take(j as int));
            j = j + 1;
        }
        proof {
            assert(string_views(line@).take(line@.len() as int) =~= string_views(line@));
            assert(all[i as int] == concat_all(string_views(line@)));
            assert(all.take(i + 1).drop_last() =~= all.take(i as int));
            if i == 0 {
                assert(all.take(0) =~= Seq::<Seq<char>>::empty());
                assert(r1 =~= Seq::<char>::empty());
            }
        }
        i = i + 1;
    }
    assert(all.take(lines@.len() as int) =~= all);
    r
}


/// Every prefix of emulable commands is emulable.
pub proof fn lemma_html_ok_prefix(cmds: Seq<Cmd>, n: int)
    requires
        html_ok(cmds),
        0 <= n <= cmds.len(),
    ensures
        html_ok(cmds.take(n)),
        n >= 1 ==> html_step_ok(html_run(cmds.take(n - 1)), cmds[n - 1]),
    decreases cmds.len() - n,
{
    if n == cmds.len() {
        assert(cmds.take(n) =~= cmds);
        if n >= 1 {
            assert(cmds.drop_last() =~= cmds.take(n - 1));
        }
    } else {
        lemma_html_ok_prefix(cmds, n + 1);
        assert(cmds.take(n + 1).drop_last() =~= cmds.take(n));
        if n >= 1 {
            assert(cmds.take(n).drop_last() =~= cmds.take(n - 1));
            assert(cmds.take(n).last() == cmds[n - 1]);
        }
    }
}

/// The cursor's row never passes the number of lines.
proof fn lemma_row_within_lines(cmds: Seq<Cmd>)
    requires
        html_ok(cmds),
    ensures
        html_run(cmds).y <= html_run(cmds).lines.len(),
        html_run(cmds).lines.len() >= 1,
        html_run(cmds).x >= 0,
        html_run(cmds).y >= 0,
    decreases cmds.len(),
{
    if cmds.len() > 0 {
        lemma_row_within_lines(cmds.drop_last());
    }
}

/// Renders a frame's commands as HTML: emulates them on a grid of cells
/// (each the HTML of one character in its style) and joins the lines with
/// line breaks.
pub fn render_to_html(commands: &Frame) -> (r: HtmlRenderOutput)
    requires
        html_ok(commands@),
    ensures
        is_html_rendering(commands@, r),
{
    let cmd_list = commands.commands();
    let ghost cmds = commands@;
    let mut lines: Vec<Vec<String>> = Vec::new();
    lines.push(Vec::new());
    let mut cursor_x: u16 = 0;
    let mut cursor_y: u16 = 0;
    let mut show_cursor = false;
    let mut i: usize = 0;
    proof {
        assert(cmds.take(0) =~= Seq::<Cmd>::empty());
        assert(cell_lines(lines@) =~~= seq![Seq::<Seq<char>>::empty()]);
    }
    while i < cmd_list.len()
        invariant
            cmd_list@ == cmds,
            html_ok(cmds),
            i <= cmds.len(),
            ({
                let s = html_run(cmds.take(i as int));
                &&& cell_lines(lines@) == s.lines
                &&& cursor_x == s.x
                &&& cursor_y == s.y
                &&& show_cursor == s.show
                &&& s.y <= s.lines.len()
            }),
        decreases cmds.len() - i,
    {
        proof {
            lemma_html_ok_prefix(cmds, i as int + 1);
            lemma_row_within_lines(cmds.take(i + 1));
            assert(cmds.take(i + 1).drop_last() =~= cmds.take(i as int));
            assert(cmds.take(i + 1).last() == cmds[i as int]);
        }
        let ghost s0 = html_run(cmds.take(i as int));
        match &cmd_list[i] {
            Cmd::ClearScreen => {
                lines.clear();
                lines.push(Vec::new());
                cursor_x = 0;
                cursor_y = 0;
                assert(cell_lines(lines@) =~~= seq![Seq::<Seq<char>>::empty()]);
            },
            Cmd::MoveTo(x, y) => {
                cursor_x = 0;
                if *y > cursor_y {
                    extend_to(&mut lines, *y as usize + 1);
                }
                cursor_y = *y;
                if *x > 0 {
                    let ghost l1 = cell_lines(lines@);
                    let mut line = lines[*y as usize].clone();
                    assert(string_views(line@) =~= l1[*y as int]);
                    pad_line(&mut line, *x as usize);
                    lines.set(*y as usize, line);
                    assert(cell_lines(lines@) =~~= l1.update(*y as int, pad_cells(l1[*y as int], *x as int)));
                }
                cursor_x = *x;
            },
            Cmd::MoveUp(d) => {
                cursor_y = if cursor_y >= *d { cursor_y - *d } else { 0 };
            },
            Cmd::MoveDown(d) => {
                cursor_y = cursor_y + *d;
                extend_to(&mut lines, cursor_y as usize + 1);
            },
            Cmd::MoveLeft(d) => {
                cursor_x = if cursor_x >= *d { cursor_x - *d } else { 0 };
            },
            Cmd::MoveRight(d) => {
                cursor_x = cursor_x + *d;
            },
            Cmd::HideCursor => {
                show_cursor = false;
            },
            Cmd::ShowCursor => {
                show_cursor = true;
            },
            Cmd::MoveToNextLine(n) => {
                let ghost l0 = cell_lines(lines@);
                let ghost y0 = cursor_y as int;
                let mut k: u16 = 0;
                assert(extend_lines(l0, y0) =~~= l0);
                while k < *n
                    invariant
                        k <= *n,
                        y0 + *n <= u16::MAX,
                        y0 <= l0.len(),
                        cursor_y == y0 + k,
                        cell_lines(lines@) == extend_lines(l0, y0 + k),
                    decreases *n - k,
                {
                    if lines.len() <= cursor_y as usize {
                        let ghost before = cell_lines(lines@);
                        let empty: Vec<String> = Vec::new();
                        lines.push(empty);
                        assert(string_views(empty@) =~= Seq::<Seq<char>>::empty());
                        assert(cell_lines(lines@) =~~= before.push(Seq::<Seq<char>>::empty()));
                    }
                    cursor_y = cursor_y + 1;
                    k = k + 1;
                    assert(cell_lines(lines@) =~~= extend_lines(l0, y0 + k));
                }
                cursor_x = 0;
                assert(*n > 0 || cell_lines(lines@) =~~= l0);
            },
            Cmd::Print(printable) => {
                let cells = cells_of(printable);
                if cells.len() > 0 {
                    let ghost l1 = cell_lines(lines@);
                    let mut line = lines[cursor_y as usize].clone();
                    assert(string_views(line@) =~= l1[cursor_y as int]);
                    let count = cells.len();
                    print_into(&mut line, cursor_x as usize, cells);
                    lines.set(cursor_y as usize, line);
                    assert(cell_lines(lines@) =~~= l1.update(cursor_y as int, print_cells(l1[cursor_y as int], cursor_x as int, printable_cells(*printable))));
                    cursor_x = cursor_x + count as u16;
                }
            },
        }
        i = i + 1;
    }
    assert(cmds.take(cmds.len() as int) =~= cmds);
    let html = lines_to_html(&lines);
    HtmlRenderOutput { html, cursor: (cursor_x, cursor_y), show_cursor }
}

/// Whether a frame's commands can be rendered as HTML; see [html_ok].
pub fn html_renders(frame: &Frame) -> (r: bool)
    ensures
        r == html_ok(frame@),
{
    let cmd_list = frame.commands();
    let ghost cmds = frame@;
    let mut nlines: u64 = 1;
    let mut x: u64 = 0;
    let mut y: u64 = 0;
    let mut i: usize = 0;
    assert(cmds.take(0) =~= Seq::<Cmd>::empty());
    while i < cmd_list.len()
        invariant
            cmd_list@ == cmds,
            cmds == frame@,
            i <= cmds.len(),
            html_ok(cmds.take(i as int)),
            nlines == html_run(cmds.take(i as int)).lines.len(),
            x == html_run(cmds.take(i as int)).x,
            y == html_run(cmds.take(i as int)).y,
            x <= u16::MAX,
            y <= u16::MAX,
            nlines <= 0x10000,
        decreases cmds.len() - i,
    {
        proof {
            assert(cmds.take(i + 1).drop_last() =~= cmds.take(i as int));
            assert(cmds.take(i + 1).last() == cmds[i as int]);
        }
        let ghost s0 = html_run(cmds.take(i as int));
        match &cmd_list[i] {
            Cmd::ClearScreen => {
                nlines = 1;
                x = 0;
                y = 0;
            },
            Cmd::MoveTo(mx, my) => {
                if !(*mx == 0 || *my as u64 > y || (*my as u64) < nlines) {
                    proof { lemma_html_not_ok_extends(cmds, i + 1); }
                    return false;
                }
                if *my as u64 > y && nlines < *my as u64 + 1 {
                    nlines = *my as u64 + 1;
                }
                x = *mx as u64;
                y = *my as u64;
            },
            Cmd::MoveUp(d) => {
                y = if y >= *d as u64 { y - *d as u64 } else { 0 };
            },
            Cmd::MoveDown(d) => {
                if !(y + (*d as u64) < 0xffff && nlines < 0xffff) {
                    proof { lemma_html_not_ok_extends(cmds, i + 1); }
                    return false;
                }
                if nlines < y + *d as u64 + 1 {
                    nlines = y + *d as u64 + 1;
                }
                y = y + *d as u64;
            },
            Cmd::MoveLeft(d) => {
                x = if x >= *d as u64 { x - *d as u64 } else { 0 };
            },
            Cmd::MoveRight(d) => {
                if !(x + (*d as u64) <= 0xffff) {
                    proof { lemma_html_not_ok_extends(cmds, i + 1); }
                    return false;
                }
                x = x + *d as u64;
            },
            Cmd::HideCursor => {},
            Cmd::ShowCursor => {},
            Cmd::MoveToNextLine(n) => {
                if !(y + (*n as u64) <= 0xffff) {
                    proof { lemma_html_not_ok_extends(cmds, i + 1); }
                    return false;
                }
                if *n > 0 && nlines < y + *n as u64 {
                    nlines = y + *n as u64;
                }
                x = 0;
                y = y + *n as u64;
            },
            Cmd::Print(p) => {
                let text = p.raw_text();
                let len = str_chars(text.as_str()).len() as u64;
                assert(printable_cells(*p).len() == printable_text(*p).len());
                if len > 0 {
                    if !(y < nlines && len <= 0xffff - x) {
                        proof { lemma_html_not_ok_extends(cmds, i + 1); }
                        return false;
                    }
                    x = x + len;
                }
            },
        }
        i = i + 1;
    }
    assert(cmds.take(cmds.len() as int) =~= cmds);
    true
}

/// Once a command cannot be emulated, no longer sequence can be.
proof fn lemma_html_not_ok_extends(cmds: Seq<Cmd>, n: int)
    requires
        0 <= n <= cmds.len(),
        !html_ok(cmds.take(n)),
    ensures
        !html_ok(cmds),
    decreases cmds.len() - n,
{
    if n < cmds.len() {
        assert(cmds.take(n + 1).drop_last() =~= cmds.take(n));
        lemma_html_not_ok_extends(cmds, n + 1);
    } else {
        assert(cmds.take(n) =~= cmds);
    }
}

} // verus!
