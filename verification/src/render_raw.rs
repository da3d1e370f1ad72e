use vstd::prelude::*;

use crate::commands::{printable_text, Cmd, Frame};
use crate::text::{char_lines, join_char_lines, join_lines, str_chars, string_from_chars, write_at, write_text};

verus! {

/// The plain-text rendering of a frame: the text on the screen, where the
/// cursor ended up, and whether it is shown.
#[derive(Debug)]
pub struct RenderResult {
    pub result: String,
    /// Row, then column.
    pub cursor: (u16, u16),
    pub show_cursor: bool,
}

/// The same rendering, under the name the command crate gives it.
pub type RawRenderOutput = RenderResult;

/// The screen while commands are emulated: its lines, the cursor's row and
/// column, and whether the cursor is shown.
pub struct RawScreen {
    pub lines: Seq<Seq<char>>,
    pub row: int,
    pub col: int,
    pub show: bool,
}

/// `lines` with empty lines added until it has at least `n`.
pub open spec fn pad_lines(lines: Seq<Seq<char>>, n: int) -> Seq<Seq<char>> {
    if lines.len() < n {
        lines + Seq::new((n - lines.len()) as nat, |i: int| Seq::<char>::empty())
    } else {
        lines
    }
}

/// The screen before any command: one empty line, the cursor at the origin, shown.
pub open spec fn raw_start() -> RawScreen {
    RawScreen { lines: seq![Seq::<char>::empty()], row: 0, col: 0, show: true }
}

/// Whether a command can be emulated on a screen: the cursor does not move
/// before the first row or column, and stays within machine words.
pub open spec fn raw_step_ok(s: RawScreen, c: Cmd) -> bool {
    match c {
        Cmd::Print(p) => printable_text(p).len() == 0 || (s.row + 1 <= usize::MAX && s.col
            + printable_text(p).len() <= usize::MAX),
        Cmd::MoveUp(y) => y <= s.row,
        Cmd::MoveDown(y) => s.row + y <= usize::MAX,
        Cmd::MoveLeft(x) => x <= s.col,
        Cmd::MoveRight(x) => s.col + x <= usize::MAX,
        Cmd::MoveToNextLine(y) => s.row + y <= usize::MAX,
        _ => true,
    }
}

/// The screen after one command.
pub open spec fn raw_step(s: RawScreen, c: Cmd) -> RawScreen {
    match c {
        Cmd::Print(p) => {
            let t = printable_text(p);
            if t.len() == 0 {
                s
            } else {
                let lines = pad_lines(s.lines, s.row + 1);
                RawScreen {
                    lines: lines.update(s.row, write_at(lines[s.row], s.col, t)),
                    row: s.row,
                    col: s.col + t.len(),
                    show: s.show,
                }
            }
        },
        Cmd::ClearScreen => RawScreen { lines: Seq::empty(), row: 0, col: 0, show: s.show },
        Cmd::MoveTo(x, y) => RawScreen { row: y as int, col: x as int, ..s },
        Cmd::MoveUp(y) => RawScreen { row: s.row - y, ..s },
        Cmd::MoveDown(y) => RawScreen { row: s.row + y, ..s },
        Cmd::MoveLeft(x) => RawScreen { col: s.col - x, ..s },
        Cmd::MoveRight(x) => RawScreen { col: s.col + x, ..s },
        Cmd::HideCursor => RawScreen { show: false, ..s },
        Cmd::ShowCursor => RawScreen { show: true, ..s },
        Cmd::MoveToNextLine(y) => RawScreen { row: s.row + y, col: 0, ..s },
    }
}

/// The screen after all the commands, in order.
pub open spec fn raw_run(cmds: Seq<Cmd>) -> RawScreen
    decreases cmds.len(),
{
    if cmds.len() == 0 {
        raw_start()
    } else {
        raw_step(raw_run(cmds.drop_last()), cmds.last())
    }
}

/// Whether every command can be emulated on the screen its predecessors left.
pub open spec fn raw_ok(cmds: Seq<Cmd>) -> bool
    decreases cmds.len(),
{
    if cmds.len() == 0 {
        true
    } else {
        raw_ok(cmds.drop_last()) && raw_step_ok(raw_run(cmds.drop_last()), cmds.last())
    }
}

/// Whether a plain-text rendering is the one of a sequence of commands.
pub open spec fn is_raw_rendering(cmds: Seq<Cmd>, r: RenderResult) -> bool {
    let s = raw_run(cmds);
    &&& r.result@ == join_lines(s.lines)
    &&& r.cursor == (s.row as u16, s.col as u16)
    &&& r.show_cursor == s.show
}

/// Emulates the commands on a terminal and returns the text it would show,
/// without styling, together with the final cursor.
pub fn render_raw(frame: &Frame) -> (r: RenderResult)
    requires
        raw_ok(frame@),
    ensures
        is_raw_rendering(frame@, r),
{
    let commands = frame.commands();
    let ghost cmds = frame@;
    let mut lines: Vec<Vec<char>> = Vec::new();
    lines.push(Vec::new());
    let mut row: usize = 0;
    let mut col: usize = 0;
    let mut show_cursor = true;
    let mut i: usize = 0;
    proof {
        assert(cmds.take(0) =~= Seq::<Cmd>::empty());
        assert(char_lines(lines@) =~~= seq![Seq::<char>::empty()]);
    }
    while i < commands.len()
        invariant
            commands@ == cmds,
            raw_ok(cmds),
            i <= cmds.len(),
            ({
                let s = raw_run(cmds.take(i as int));
                &&& char_lines(lines@) == s.lines
                &&& row == s.row
                &&& col == s.col
                &&& show_cursor == s.show
            }),
        decreases cmds.len() - i,
    {
        proof {
            lemma_raw_ok_prefix(cmds, i as int + 1);
            assert(cmds.take(i + 1).drop_last() =~= cmds.take(i as int));
            assert(cmds.take(i + 1).last() == cmds[i as int]);
        }
        let ghost s0 = raw_run(cmds.take(i as int));
        match &commands[i] {
            Cmd::Print(printable) => {
                let text_string = printable.raw_text();
                let text = str_chars(text_string.as_str());
                if text.len() > 0 {
                    while lines.len() < row + 1
                        invariant
                            row + 1 <= usize::MAX,
                            s0.lines.len() <= char_lines(lines@).len() <= (if s0.lines.len() < row + 1 { row + 1 } else { s0.lines.len() as int }),
                            char_lines(lines@) == s0.lines + Seq::new((char_lines(lines@).len() - s0.lines.len()) as nat, |k: int| Seq::<char>::empty()),
                        decreases row + 1 - lines@.len(),
                    {
                        let ghost before = char_lines(lines@);
                        let empty: Vec<char> = Vec::new();
                        assert(empty@ =~= Seq::<char>::empty());
                        lines.push(empty);
                        assert(char_lines(lines@) =~~= before.push(Seq::<char>::empty()));
                        assert(char_lines(lines@) =~~= s0.lines + Seq::new((char_lines(lines@).len() - s0.lines.len()) as nat, |k: int| Seq::<char>::empty()));
                    }
                    let ghost padded = char_lines(lines@);
                    assert(padded =~~= pad_lines(s0.lines, row + 1));
                    let mut line = lines[row].clone();
                    assert(line@ == padded[row as int]);
                    write_text(&mut line, col, &text);
                    lines.set(row, line);
                    col = col + text.len();
                    assert(char_lines(lines@) =~~= padded.update(row as int, write_at(padded[row as int], s0.col, text@)));
                }
            },
            Cmd::ClearScreen => {
                lines.clear();
                row = 0;
                col = 0;
                assert(char_lines(lines@) =~~= Seq::<Seq<char>>::empty());
            },
            Cmd::MoveTo(x, y) => {
                row = *y as usize;
                col = *x as usize;
            },
            Cmd::MoveUp(y) => {
                row = row - *y as usize;
            },
            Cmd::MoveDown(y) => {
                row = row + *y as usize;
            },
            Cmd::MoveLeft(x) => {
                col = col - *x as usize;
            },
            Cmd::MoveRight(x) => {
                col = col + *x as usize;
            },
            Cmd::HideCursor => {
                show_cursor = false;
            },
            Cmd::ShowCursor => {
                show_cursor = true;
            },
            Cmd::MoveToNextLine(y) => {
                row = row + *y as usize;
                col = 0;
            },
        }
        i = i + 1;
    }
    assert(cmds.take(cmds.len() as int) =~= cmds);
    let joined = join_char_lines(&lines);
    let result = string_from_chars(&joined);
    RenderResult { result, cursor: (#[verifier::truncate] (row as u16), #[verifier::truncate] (col as u16)), show_cursor }
}

/// Every prefix of emulable commands is emulable.
pub proof fn lemma_raw_ok_prefix(cmds: Seq<Cmd>, n: int)
    requires
        raw_ok(cmds),
        0 <= n <= cmds.len(),
    ensures
        raw_ok(cmds.take(n)),
        n >= 1 ==> raw_step_ok(raw_run(cmds.take(n - 1)), cmds[n - 1]),
    decreases cmds.len() - n,
{
    if n == cmds.len() {
        assert(cmds.take(n) =~= cmds);
        if n >= 1 {
            assert(cmds.drop_last() =~= cmds.take(n - 1));
        }
    } else {
        lemma_raw_ok_prefix(cmds, n + 1);
        assert(cmds.take(n + 1).drop_last() =~= cmds.take(n));
        if n >= 1 {
            assert(cmds.take(n).drop_last() =~= cmds.take(n - 1));
            assert(cmds.take(n).last() == cmds[n - 1]);
        }
    }
}

/// The renderer that emulates a terminal and keeps only the text.
pub struct RawRenderer;

/// Something that turns a frame into what a terminal would show.
pub trait Renderer {
    /// Renders the frame (whose cursor moves must stay on the screen).
    fn render(&self, frame: &Frame) -> RenderResult
        requires
            raw_ok(frame@),
    ;
}

impl Renderer for RawRenderer {
    /// The plain-text rendering; see [render_raw].
    fn render(&self, frame: &Frame) -> (r: RenderResult)
        ensures
            is_raw_rendering(frame@, r),
    {
        render_raw(frame)
    }
}

impl Frame {
    /// The plain-text rendering of this frame; see [render_raw].
    pub fn render_raw(&self) -> (r: RenderResult)
        requires
            raw_ok(self@),
        ensures
            is_raw_rendering(self@, r),
    {
        RawRenderer.render(self)
    }
}


/// Whether a frame can be rendered as plain text; see [raw_ok].
pub fn raw_renders(frame: &Frame) -> (r: bool)
    ensures
        r == raw_ok(frame@),
{
    let commands = frame.commands();
    let ghost cmds = frame@;
    let mut row: usize = 0;
    let mut col: usize = 0;
    let mut i: usize = 0;
    assert(cmds.take(0) =~= Seq::<Cmd>::empty());
    while i < commands.len()
        invariant
            commands@ == cmds,
            frame@ == cmds,
            i <= cmds.len(),
            raw_ok(cmds.take(i as int)),
            row == raw_run(cmds.take(i as int)).row,
            col == raw_run(cmds.take(i as int)).col,
        decreases cmds.len() - i,
    {
        let ghost s0 = raw_run(cmds.take(i as int));
        proof {
            assert(cmds.take(i + 1).drop_last() =~= cmds.take(i as int));
            assert(cmds.take(i + 1).last() == cmds[i as int]);
        }
        let ok = match &commands[i] {
            Cmd::Print(printable) => {
                let text_string = printable.raw_text();
                let text = str_chars(text_string.as_str());
                if text.len() == 0 {
                    true
                } else if row == usize::MAX || col > usize::MAX - text.len() {
                    false
                } else {
                    col = col + text.len();
                    true
                }
            },
            Cmd::ClearScreen => {
                row = 0;
                col = 0;
                true
            },
            Cmd::MoveTo(x, y) => {
                row = *y as usize;
                col = *x as usize;
                true
            },
            Cmd::MoveUp(y) => if (*y as usize) <= row {
                row = row - *y as usize;
                true
            } else {
                false
            },
            Cmd::MoveDown(y) => if row <= usize::MAX - *y as usize {
                row = row + *y as usize;
                true
            } else {
                false
            },
            Cmd::MoveLeft(x) => if (*x as usize) <= col {
                col = col - *x as usize;
                true
            } else {
                false
            },
            Cmd::MoveRight(x) => if col <= usize::MAX - *x as usize {
                col = col + *x as usize;
                true
            } else {
                false
            },
            Cmd::HideCursor | Cmd::ShowCursor => true,
            Cmd::MoveToNextLine(y) => if row <= usize::MAX - *y as usize {
                row = row + *y as usize;
                col = 0;
                true
            } else {
                false
            },
        };
        if !ok {
            proof {
                assert(!raw_step_ok(s0, cmds[i as int]));
                assert(!raw_ok(cmds.take(i + 1)));
                lemma_raw_not_ok_extends(cmds, i as int + 1);

            }
            return false;
        }
        i = i + 1;
    }
    assert(cmds.take(cmds.len() as int) =~= cmds);
    true
}

/// Commands that cannot be emulated stay so with more after them.
proof fn lemma_raw_not_ok_extends(cmds: Seq<Cmd>, n: int)
    requires
        1 <= n <= cmds.len(),
        !raw_ok(cmds.take(n)),
    ensures
        !raw_ok(cmds),
    decreases cmds.len() - n,
{
    if n == cmds.len() {
        assert(cmds.take(n) =~= cmds);
    } else {
        assert(cmds.take(n + 1).drop_last() =~= cmds.take(n));
        lemma_raw_not_ok_extends(cmds, n + 1);
    }
}

} // verus!
