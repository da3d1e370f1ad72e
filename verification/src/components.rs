use vstd::prelude::*;

use crate::commands::{Cmd, Component, Frame, Printable};
use crate::render_raw::{raw_ok, raw_renders, raw_run, render_raw};
use crate::text::join_lines;
use crate::game_state::{GameState, STARTING_GOLD};
use crate::goods_map::PriceRanges;
use crate::location::{location_name, Location};
use crate::style::{
    attribute_style, is_plain_style, lemma_style_values, plain_style, Attribute, ContentStyle, StyledContent,
};
use crate::text::{decimal, decimal_string, push_decimal, push_str, str_to_string};

verus! {

/// The width of the game's screen, in columns.
pub const FRAME_WIDTH: u16 = 99;

/// The height of the game's screen, in rows (the bottom border is on this row).
pub const FRAME_HEIGHT: u16 = 32;

/// The row of the line that divides a port's screen.
pub const LOCATION_DIVIDER_Y: u16 = 19;

/// The border line of the plain screen.
pub const SIMPLE_HORIZONTAL_FULL: &'static str = "---------------------------------------------------------------------------------------------------";

/// A border line of a port's screen.
pub const LONDON_HORIZONTAL_TOP: &'static str = "'~.~'~.~'~.~'~.~'~.~'~.~'~.~'~.~'~.~'~.~'~.~'~.~'~.~'~.~'~.~'~.~'~.~'~.~'~.~'~.~'~.~'~.~'~.~'~.~'~.";

/// A border line of a port's screen.
pub const LONDON_HORIZONTAL_BOT: &'static str = ".~'~.~'~.~'~.~'~.~'~.~'~.~'~.~'~.~'~.~'~.~'~.~'~.~'~.~'~.~'~.~'~.~'~.~'~.~'~.~'~.~'~.~'~.~'~.~'~.~'";

/// A border line of a port's screen.
pub const LONDON_HORIZONTAL_MID: &'static str = "'~~.~~'~~.~~'~~.~~'~~.~~'~~.~~'~~.~~'~~.~~'~~.~~'~~.~~'~~.~~'~~.~~'~~.~~'~~.~~'~~.~~'~~.~~'~~.~~'";

/// A border line of a port's screen.
pub const SAVANNAH_HORIZONTAL_TOP: &'static str = "┴┬┴┬┴┬┴┬┴┬┴┬┴┬┴┬┴┬┴┬┴┬┴┬┴┬┴┬┴┬┴┬┴┬┴┬┴┬┴┬┴┬┴┬┴┬┴┬┴┬┴┬┴┬┴┬┴┬┴┬┴┬┴┬┴┬┴┬┴┬┴┬┴┬┴┬┴┬┴┬┴┬┴┬┴┬┴┬┴┬┴┬┴┬┴┬┴┬┴";

/// A border line of a port's screen.
pub const SAVANNAH_HORIZONTAL_BOT: &'static str = "┬┴┬┴┬┴┬┴┬┴┬┴┬┴┬┴┬┴┬┴┬┴┬┴┬┴┬┴┬┴┬┴┬┴┬┴┬┴┬┴┬┴┬┴┬┴┬┴┬┴┬┴┬┴┬┴┬┴┬┴┬┴┬┴┬┴┬┴┬┴┬┴┬┴┬┴┬┴┬┴┬┴┬┴┬┴┬┴┬┴┬┴┬┴┬┴┬┴┬";

/// A border line of a port's screen.
pub const SAVANNAH_HORIZONTAL_MID: &'static str = "─┼─┼─┼─┼─┼─┼─┼─┼─┼─┼─┼─┼─┼─┼─┼─┼─┼─┼─┼─┼─┼─┼─┼─┼─┼─┼─┼─┼─┼─┼─┼─┼─┼─┼─┼─┼─┼─┼─┼─┼─┼─┼─┼─┼─┼─┼─┼─┼─";

/// A border line of a port's screen.
pub const LISBON_HORIZONTAL_TOP: &'static str = "▚▞▚▞▚▞▚▞▚▞▚▞▚▞▚▞▚▞▚▞▚▞▚▞▚▞▚▞▚▞▚▞▚▞▚▞▚▞▚▞▚▞▚▞▚▞▚▞▚▞▚▞▚▞▚▞▚▞▚▞▚▞▚▞▚▞▚▞▚▞▚▞▚▞▚▞▚▞▚▞▚▞▚▞▚▞▚▞▚▞▚▞▚▞▚▞▚▞▚";

/// A border line of a port's screen.
pub const LISBON_HORIZONTAL_BOT: &'static str = "▞▚▞▚▞▚▞▚▞▚▞▚▞▚▞▚▞▚▞▚▞▚▞▚▞▚▞▚▞▚▞▚▞▚▞▚▞▚▞▚▞▚▞▚▞▚▞▚▞▚▞▚▞▚▞▚▞▚▞▚▞▚▞▚▞▚▞▚▞▚▞▚▞▚▞▚▞▚▞▚▞▚▞▚▞▚▞▚▞▚▞▚▞▚▞▚▞▚▞";

/// A border line of a port's screen.
pub const LISBON_HORIZONTAL_MID: &'static str = "▄█▀█▄█▀█▄█▀█▄█▀█▄█▀█▄█▀█▄█▀█▄█▀█▄█▀█▄█▀█▄█▀█▄█▀█▄█▀█▄█▀█▄█▀█▄█▀█▄█▀█▄█▀█▄█▀█▄█▀█▄█▀█▄█▀█▄█▀█▄█▀█▄";

/// A border line of a port's screen.
pub const AMSTERDAM_HORIZONTAL_TOP: &'static str = "▷◁▷◁▷◁▷◁▷◁▷◁▷◁▷◁▷◁▷◁▷◁▷◁▷◁▷◁▷◁▷◁▷◁▷◁▷◁▷◁▷◁▷◁▷◁▷◁▷◁▷◁▷◁▷◁▷◁▷◁▷◁▷◁▷◁▷◁▷◁▷◁▷◁▷◁▷◁▷◁▷◁▷◁▷◁▷◁▷◁▷◁▷◁▷◁▷◁▷";

/// A border line of a port's screen.
pub const AMSTERDAM_HORIZONTAL_BOT: &'static str = "◁▷◁▷◁▷◁▷◁▷◁▷◁▷◁▷◁▷◁▷◁▷◁▷◁▷◁▷◁▷◁▷◁▷◁▷◁▷◁▷◁▷◁▷◁▷◁▷◁▷◁▷◁▷◁▷◁▷◁▷◁▷◁▷◁▷◁▷◁▷◁▷◁▷◁▷◁▷◁▷◁▷◁▷◁▷◁▷◁▷◁▷◁▷◁▷◁▷◁";

/// A border line of a port's screen.
pub const AMSTERDAM_HORIZONTAL_MID: &'static str = "◊◁▷◊◁▷◊◁▷◊◁▷◊◁▷◊◁▷◊◁▷◊◁▷◊◁▷◊◁▷◊◁▷◊◁▷◊◁▷◊◁▷◊◁▷◊◁▷◊◁▷◊◁▷◊◁▷◊◁▷◊◁▷◊◁▷◊◁▷◊◁▷◊◁▷◊◁▷◊◁▷◊◁▷◊◁▷◊◁▷◊◁▷◊◁▷◊";

/// A border line of a port's screen.
pub const CAPETOWN_HORIZONTAL_TOP: &'static str = "◗●◖◗●◖◗●◖◗●◖◗●◖◗●◖◗●◖◗●◖◗●◖◗●◖◗●◖◗●◖◗●◖◗●◖◗●◖◗●◖◗●◖◗●◖◗●◖◗●◖◗●◖◗●◖◗●◖◗●◖◗●◖◗●◖◗●◖◗●◖◗●◖◗●◖◗●◖◗●◖◗●◖";

/// A border line of a port's screen.
pub const CAPETOWN_HORIZONTAL_BOT: &'static str = "◖◗●◖◗●◖◗●◖◗●◖◗●◖◗●◖◗●◖◗●◖◗●◖◗●◖◗●◖◗●◖◗●◖◗●◖◗●◖◗●◖◗●◖◗●◖◗●◖◗●◖◗●◖◗●◖◗●◖◗●◖◗●◖◗●◖◗●◖◗●◖◗●◖◗●◖◗●◖◗●◖◗●";

/// A border line of a port's screen.
pub const CAPETOWN_HORIZONTAL_MID: &'static str = "◐◓◑◒◐◓◑◒◐◓◑◒◐◓◑◒◐◓◑◒◐◓◑◒◐◓◑◒◐◓◑◒◐◓◑◒◐◓◑◒◐◓◑◒◐◓◑◒◐◓◑◒◐◓◑◒◐◓◑◒◐◓◑◒◐◓◑◒◐◓◑◒◐◓◑◒◐◓◑◒◐◓◑◒◐◓◑◒◐◓◑◒◐◓◑◒◐";

/// A border line of a port's screen.
pub const VENICE_HORIZONTAL_TOP: &'static str = "╱╳╲╳╱╳╲╳╱╳╲╳╱╳╲╳╱╳╲╳╱╳╲╳╱╳╲╳╱╳╲╳╱╳╲╳╱╳╲╳╱╳╲╳╱╳╲╳╱╳╲╳╱╳╲╳╱╳╲╳╱╳╲╳╱╳╲╳╱╳╲╳╱╳╲╳╱╳╲╳╱╳╲╳╱╳╲╳╱╳╲╳╱╳╲╳╱╳╲";

/// A border line of a port's screen.
pub const VENICE_HORIZONTAL_BOT: &'static str = "╲╳╱╳╲╳╱╳╲╳╱╳╲╳╱╳╲╳╱╳╲╳╱╳╲╳╱╳╲╳╱╳╲╳╱╳╲╳╱╳╲╳╱╳╲╳╱╳╲╳╱╳╲╳╱╳╲╳╱╳╲╳╱╳╲╳╱╳╲╳╱╳╲╳╱╳╲╳╱╳╲╳╱╳╲╳╱╳╲╳╱╳╲╳╱╳╲╳╱";

/// A border line of a port's screen.
pub const VENICE_HORIZONTAL_MID: &'static str = "╲╱╱╲╲╱╱╲╲╱╱╲╲╱╱╲╲╱╱╲╲╱╱╲╲╱╱╲╲╱╱╲╲╱╱╲╲╱╱╲╲╱╱╲╲╱╱╲╲╱╱╲╲╱╱╲╲╱╱╲╲╱╱╲╲╱╱╲╲╱╱╲╲╱╱╲╲╱╱╲╲╱╱╲╲╱╱╲╲╱╱╲╲╱╱╲╲";


/// A line of the title drawn on the splash screen.
pub const LOGO_0: &'static str = " __  __               _                 _   ";
/// A line of the title drawn on the splash screen.
pub const LOGO_1: &'static str = "|  \\/  |             | |               | |  ";
/// A line of the title drawn on the splash screen.
pub const LOGO_2: &'static str = "| \\  / | ___ _ __ ___| |__   __ _ _ __ | |_ ";
/// A line of the title drawn on the splash screen.
pub const LOGO_3: &'static str = "| |\\/| |/ _ \\ '__/ __| '_ \\ / _` | '_ \\| __|";
/// A line of the title drawn on the splash screen.
pub const LOGO_4: &'static str = "| |  | |  __/ | | (__| | | | (_| | | | | |_ ";
/// A line of the title drawn on the splash screen.
pub const LOGO_5: &'static str = "|_|  |_|\\___|_|  \\___|_| |_|\\__,_|_| |_|\\__|";
/// A line of the title drawn when the game is over.
pub const GAME_OVER_0: &'static str = "  _____                         ____                 ";
/// A line of the title drawn when the game is over.
pub const GAME_OVER_1: &'static str = " / ____|                       / __ \\                ";
/// A line of the title drawn when the game is over.
pub const GAME_OVER_2: &'static str = "| |  __  __ _ _ __ ___   ___  | |  | |_   _____ _ __ ";
/// A line of the title drawn when the game is over.
pub const GAME_OVER_3: &'static str = "| | |_ |/ _` | '_ ` _ \\ / _ \\ | |  | \\ \\ / / _ \\ '__|";
/// A line of the title drawn when the game is over.
pub const GAME_OVER_4: &'static str = "| |__| | (_| | | | | | |  __/ | |__| |\\ V /  __/ |   ";
/// A line of the title drawn when the game is over.
pub const GAME_OVER_5: &'static str = " \\_____|\\__,_|_| |_| |_|\\___|  \\____/  \\_/ \\___|_|   ";


/// A drawing command seen by what it shows: texts by their characters.
pub enum CmdView {
    ClearScreen,
    MoveTo(u16, u16),
    MoveUp(u16),
    MoveDown(u16),
    MoveLeft(u16),
    MoveRight(u16),
    HideCursor,
    ShowCursor,
    MoveToNextLine(u16),
    PrintText(Seq<char>),
    PrintChar(char),
    PrintStyled(ContentStyle, Seq<char>),
}

/// What printing a printable shows.
pub open spec fn printable_view(p: Printable) -> CmdView {
    match p {
        Printable::String(s) => CmdView::PrintText(s@),
        Printable::Char(c) => CmdView::PrintChar(c),
        Printable::StyledContent(sc) => CmdView::PrintStyled(sc.style, sc.content@),
    }
}

/// What a command shows.
pub open spec fn cmd_view(c: Cmd) -> CmdView {
    match c {
        Cmd::ClearScreen => CmdView::ClearScreen,
        Cmd::MoveTo(x, y) => CmdView::MoveTo(x, y),
        Cmd::MoveUp(n) => CmdView::MoveUp(n),
        Cmd::MoveDown(n) => CmdView::MoveDown(n),
        Cmd::MoveLeft(n) => CmdView::MoveLeft(n),
        Cmd::MoveRight(n) => CmdView::MoveRight(n),
        Cmd::HideCursor => CmdView::HideCursor,
        Cmd::ShowCursor => CmdView::ShowCursor,
        Cmd::MoveToNextLine(n) => CmdView::MoveToNextLine(n),
        Cmd::Print(p) => printable_view(p),
    }
}

/// What a sequence of commands shows.
pub open spec fn cmds_view(cmds: Seq<Cmd>) -> Seq<CmdView> {
    cmds.map_values(|c: Cmd| cmd_view(c))
}

/// Whether frame `f` holds `base` followed by commands that show `shown`.
pub open spec fn drawn(f: Seq<Cmd>, base: Seq<Cmd>, shown: Seq<CmdView>) -> bool {
    &&& base.len() <= f.len()
    &&& f.take(base.len() as int) == base
    &&& cmds_view(f.skip(base.len() as int)) == shown
}

/// A frame holds what it held and nothing after it.
pub proof fn lemma_drawn_start(base: Seq<Cmd>)
    ensures
        drawn(base, base, Seq::empty()),
{
    assert(base.take(base.len() as int) =~= base);
    assert(cmds_view(base.skip(base.len() as int)) =~= Seq::<CmdView>::empty());
}

/// Commands appended after a drawing extend what it shows.
proof fn lemma_drawn_more(base: Seq<Cmd>, old: Seq<Cmd>, new: Seq<Cmd>, shown: Seq<CmdView>, more: Seq<CmdView>)
    requires
        drawn(old, base, shown),
        old.len() <= new.len(),
        new.take(old.len() as int) == old,
        cmds_view(new.skip(old.len() as int)) == more,
    ensures
        drawn(new, base, shown + more),
{
    assert(new.take(base.len() as int) =~= old.take(base.len() as int));
    assert(new.skip(base.len() as int) =~= old.skip(base.len() as int) + new.skip(old.len() as int));
    assert(cmds_view(new.skip(base.len() as int)) =~= cmds_view(old.skip(base.len() as int)) + cmds_view(
        new.skip(old.len() as int),
    ));
}

/// Appends one command.
pub fn emit(frame: &mut Frame, cmd: Cmd, Ghost(base): Ghost<Seq<Cmd>>, Ghost(shown): Ghost<Seq<CmdView>>)
    requires
        drawn(old(frame)@, base, shown),
    ensures
        drawn(final(frame)@, base, shown.push(cmd_view(cmd))),
{
    let ghost before = frame@;
    frame.push(cmd);
    proof {
        assert(frame@.take(before.len() as int) =~= before);
        assert(cmds_view(frame@.skip(before.len() as int)) =~= seq![cmd_view(cmd)]);
        lemma_drawn_more(base, before, frame@, shown, seq![cmd_view(cmd)]);
        assert(shown + seq![cmd_view(cmd)] =~= shown.push(cmd_view(cmd)));
    }
}

/// Appends the printing of a string slice.
pub fn emit_str(frame: &mut Frame, text: &str, Ghost(base): Ghost<Seq<Cmd>>, Ghost(shown): Ghost<Seq<CmdView>>)
    requires
        drawn(old(frame)@, base, shown),
    ensures
        drawn(final(frame)@, base, shown.push(CmdView::PrintText(text@))),
{
    emit(frame, Cmd::Print(Printable::String(str_to_string(text))), Ghost(base), Ghost(shown));
}

/// The number of bytes of text in UTF-8, as a `usize` (`str::len`).
pub open spec fn byte_len(t: Seq<char>) -> nat {
    (vstd::utf8::encode_utf8(t).len() as usize) as nat
}

/// The column where text of `len` bytes starts when centered on the screen:
/// half the screen's width less half the text's, rounded half away from zero,
/// and not before the first column.
pub open spec fn centered_start(len: u16) -> u16 {
    if len >= FRAME_WIDTH + 1 {
        0
    } else {
        ((FRAME_WIDTH + 1 - len) / 2) as u16
    }
}

/// The total number of bytes of some texts, stopping at the largest `usize`.
pub open spec fn bytes_total(texts: Seq<Seq<char>>) -> nat
    decreases texts.len(),
{
    if texts.len() == 0 {
        0
    } else {
        let t = bytes_total(texts.drop_last()) + byte_len(texts.last());
        if t > usize::MAX { usize::MAX as nat } else { t }
    }
}

/// What centered text shows: a move to the start of its row, then its pieces.
pub open spec fn centered_view(pieces: Seq<CmdView>, len: nat, row: u16) -> Seq<CmdView> {
    seq![CmdView::MoveTo(centered_start(len as u16), row)] + pieces
}

/// Text centered on one row of the screen, made of pieces printed one after the other.
pub struct ScreenCenteredText {
    content: Vec<Printable>,
    content_len: usize,
    line: u16,
}

impl ScreenCenteredText {
    /// What drawing this text shows: a move to the centered start of its row
    /// (its length in bytes taken as a `u16`), then its pieces.
    pub closed spec fn view_cmds(&self) -> Seq<CmdView> {
        centered_view(self.content@.map_values(|p: Printable| printable_view(p)), self.content_len as nat, self.line)
    }

    /// Plain texts centered on a row. Their length is counted in bytes (a sum
    /// past the largest `usize` stops there).
    pub fn new(content: &[String], line: u16) -> (r: ScreenCenteredText)
        ensures
            r.view_cmds() == centered_view(
                content@.map_values(|s: String| CmdView::PrintText(s@)),
                bytes_total(content@.map_values(|s: String| s@)),
                line,
            ),
    {
        let ghost texts = content@.map_values(|s: String| s@);
        let mut pieces: Vec<Printable> = Vec::new();
        let mut content_len: usize = 0;
        let mut i: usize = 0;
        while i < content.len()
            invariant
                texts == content@.map_values(|s: String| s@),
                i <= content@.len(),
                content_len == bytes_total(texts.take(i as int)),
                pieces@.map_values(|p: Printable| printable_view(p)) == content@.take(i as int).map_values(
                    |s: String| CmdView::PrintText(s@),
                ),
            decreases content@.len() - i,
        {
            proof {
                assert(texts.take(i + 1).drop_last() =~= texts.take(i as int));
            }
            let piece = content[i].clone();
            let n = piece.as_str().len();
            assert(texts[i as int] == content@[i as int]@);
            assert(n == byte_len(texts[i as int]));
            assert(texts.take(i + 1).last() == texts[i as int]);
            content_len = content_len.saturating_add(n);
            let ghost before = pieces@;
            assert(piece@ == content@[i as int]@);
            pieces.push(Printable::String(piece));
            assert(pieces@.map_values(|p: Printable| printable_view(p)) =~= before.map_values(
                |p: Printable| printable_view(p),
            ).push(CmdView::PrintText(content@[i as int]@)));
            assert(content@.take(i + 1).map_values(|s: String| CmdView::PrintText(s@)) =~= content@.take(
                i as int,
            ).map_values(|s: String| CmdView::PrintText(s@)).push(CmdView::PrintText(content@[i as int]@)));
            i = i + 1;
        }
        assert(texts.take(content@.len() as int) =~= texts);
        assert(content@.take(content@.len() as int) =~= content@);
        ScreenCenteredText { content: pieces, content_len, line }
    }

    /// Styled texts centered on a row; see [ScreenCenteredText::new].
    pub fn new_styleds(content: &[StyledContent<&str>], line: u16) -> (r: ScreenCenteredText)
        ensures
            r.view_cmds() == centered_view(
                content@.map_values(|s: StyledContent<&str>| CmdView::PrintStyled(s.style, s.content@)),
                bytes_total(content@.map_values(|s: StyledContent<&str>| s.content@)),
                line,
            ),
    {
        let ghost texts = content@.map_values(|s: StyledContent<&str>| s.content@);
        let mut pieces: Vec<Printable> = Vec::new();
        let mut content_len: usize = 0;
        let mut i: usize = 0;
        while i < content.len()
            invariant
                texts == content@.map_values(|s: StyledContent<&str>| s.content@),
                i <= content@.len(),
                content_len == bytes_total(texts.take(i as int)),
                pieces@.map_values(|p: Printable| printable_view(p)) == content@.take(i as int).map_values(
                    |s: StyledContent<&str>| CmdView::PrintStyled(s.style, s.content@),
                ),
            decreases content@.len() - i,
        {
            proof {
                assert(texts.take(i + 1).drop_last() =~= texts.take(i as int));
            }
            let piece = content[i];
            let n = piece.content.len();
            assert(texts[i as int] == content@[i as int].content@);
            assert(n == byte_len(texts[i as int]));
            assert(texts.take(i + 1).last() == texts[i as int]);
            content_len = content_len.saturating_add(n);
            let owned = StyledContent { style: piece.style, content: str_to_string(piece.content) };
            let ghost before = pieces@;
            pieces.push(Printable::StyledContent(owned));
            assert(pieces@.map_values(|p: Printable| printable_view(p)) =~= before.map_values(
                |p: Printable| printable_view(p),
            ).push(CmdView::PrintStyled(piece.style, piece.content@)));
            assert(content@.take(i + 1).map_values(
                |s: StyledContent<&str>| CmdView::PrintStyled(s.style, s.content@),
            ) =~= content@.take(i as int).map_values(
                |s: StyledContent<&str>| CmdView::PrintStyled(s.style, s.content@),
            ).push(CmdView::PrintStyled(piece.style, piece.content@)));
            i = i + 1;
        }
        assert(texts.take(content@.len() as int) =~= texts);
        assert(content@.take(content@.len() as int) =~= content@);
        ScreenCenteredText { content: pieces, content_len, line }
    }
}

/// The column where text of `len` bytes starts when centered; see [centered_start].
fn centered_start_exec(len: u16) -> (r: u16)
    ensures
        r == centered_start(len),
{
    if len >= FRAME_WIDTH + 1 {
        0
    } else {
        (FRAME_WIDTH + 1 - len) / 2
    }
}

impl ScreenCenteredText {
    /// Appends the drawing of this text.
    pub fn emit_into(&self, frame: &mut Frame, Ghost(base): Ghost<Seq<Cmd>>, Ghost(shown): Ghost<Seq<CmdView>>)
        requires
            drawn(old(frame)@, base, shown),
        ensures
            drawn(final(frame)@, base, shown + self.view_cmds()),
    {
        #[verifier::truncate]
        let len16 = self.content_len as u16;
        let start = centered_start_exec(len16);
        emit(frame, Cmd::MoveTo(start, self.line), Ghost(base), Ghost(shown));
        let ghost first = shown.push(CmdView::MoveTo(start, self.line));
        let mut i: usize = 0;
        while i < self.content.len()
            invariant
                i <= self.content@.len(),
                drawn(frame@, base, first + self.content@.take(i as int).map_values(|p: Printable| printable_view(p))),
            decreases self.content@.len() - i,
        {
            let p = self.content[i].clone_printable();
            let ghost so_far = first + self.content@.take(i as int).map_values(|p: Printable| printable_view(p));
            emit(frame, Cmd::Print(p), Ghost(base), Ghost(so_far));
            assert(first + self.content@.take(i + 1).map_values(|p: Printable| printable_view(p)) =~= so_far.push(
                printable_view(self.content@[i as int]),
            ));
            i = i + 1;
        }
        assert(first + self.content@.take(self.content@.len() as int).map_values(|p: Printable| printable_view(p))
            =~= shown + self.view_cmds());
    }
}

impl Component for ScreenCenteredText {
    open spec fn can_render(&self) -> bool {
        true
    }

    open spec fn draws(&self, cmds: Seq<Cmd>) -> bool {
        cmds_view(cmds) == self.view_cmds()
    }

    fn render(&self, frame: &mut Frame) -> (r: Result<(), String>)
        ensures
            r is Ok,
    {
        let ghost base = frame@;
        proof { lemma_drawn_start(base); }
        self.emit_into(frame, Ghost(base), Ghost(Seq::empty()));
        assert(Seq::<CmdView>::empty() + self.view_cmds() =~= self.view_cmds());
        Ok(())
    }
}

impl Printable {
    /// A copy that shows the same.
    pub fn clone_printable(&self) -> (r: Printable)
        ensures
            printable_view(r) == printable_view(*self),
    {
        match self {
            Printable::String(s) => Printable::String(s.clone()),
            Printable::Char(c) => Printable::Char(*c),
            Printable::StyledContent(sc) => Printable::StyledContent(
                StyledContent { style: sc.style, content: sc.content.clone() },
            ),
        }
    }
}

/// Plain text centered on a row.
fn centered_plain(text: String, row: u16) -> (r: ScreenCenteredText)
    ensures
        r.view_cmds() == centered_view(seq![CmdView::PrintText(text@)], bytes_total(seq![text@]), row),
{
    let content = [text];
    let r = ScreenCenteredText::new(&content, row);
    assert(content@.map_values(|s: String| CmdView::PrintText(s@)) =~= seq![CmdView::PrintText(content@[0]@)]);
    assert(content@.map_values(|s: String| s@) =~= seq![content@[0]@]);
    r
}

/// A literal centered on a row.
fn centered_str(text: &str, row: u16) -> (r: ScreenCenteredText)
    ensures
        r.view_cmds() == centered_view(seq![CmdView::PrintText(text@)], bytes_total(seq![text@]), row),
{
    centered_plain(str_to_string(text), row)
}

/// A message asking for a larger terminal: the width needed and the current
/// width where it is too narrow, the height needed and the current height
/// where it is too short.
pub open spec fn resize_message(x: u16, y: u16) -> Seq<char> {
    if x < FRAME_WIDTH && y < FRAME_HEIGHT {
        "Please resize terminal to be at least "@ + decimal(FRAME_WIDTH as nat) + " columns wide (currently "@
            + decimal(x as nat) + ") and "@ + decimal(FRAME_HEIGHT as nat) + " columns tall (currently "@
            + decimal(y as nat) + ")."@
    } else if x < FRAME_WIDTH {
        "Please resize terminal to be at least "@ + decimal(FRAME_WIDTH as nat) + " columns wide (currently "@
            + decimal(x as nat) + ")."@
    } else {
        "Please resize terminal to be at least "@ + decimal(FRAME_HEIGHT as nat) + " columns tall (currently "@
            + decimal(y as nat) + ")."@
    }
}

/// The screen shown instead of the game when the terminal is too small.
pub struct RequireResize {
    pub current_x_cols: u16,
    pub current_y_cols: u16,
}

impl Component for RequireResize {
    open spec fn can_render(&self) -> bool {
        true
    }

    open spec fn draws(&self, cmds: Seq<Cmd>) -> bool {
        cmds_view(cmds) == seq![
            CmdView::ClearScreen,
            CmdView::MoveTo(0, 0),
            CmdView::PrintText(resize_message(self.current_x_cols, self.current_y_cols)),
            CmdView::HideCursor,
        ]
    }

    fn render(&self, frame: &mut Frame) -> (r: Result<(), String>)
        ensures
            r is Ok,
    {
        let x = self.current_x_cols;
        let y = self.current_y_cols;
        let mut msg = String::new();
        if x < FRAME_WIDTH && y < FRAME_HEIGHT {
            push_str(&mut msg, "Please resize terminal to be at least ");
            push_decimal(&mut msg, FRAME_WIDTH as u64);
            push_str(&mut msg, " columns wide (currently ");
            push_decimal(&mut msg, x as u64);
            push_str(&mut msg, ") and ");
            push_decimal(&mut msg, FRAME_HEIGHT as u64);
            push_str(&mut msg, " columns tall (currently ");
            push_decimal(&mut msg, y as u64);
            push_str(&mut msg, ").");
        } else if x < FRAME_WIDTH {
            push_str(&mut msg, "Please resize terminal to be at least ");
            push_decimal(&mut msg, FRAME_WIDTH as u64);
            push_str(&mut msg, " columns wide (currently ");
            push_decimal(&mut msg, x as u64);
            push_str(&mut msg, ").");
        } else {
            push_str(&mut msg, "Please resize terminal to be at least ");
            push_decimal(&mut msg, FRAME_HEIGHT as u64);
            push_str(&mut msg, " columns tall (currently ");
            push_decimal(&mut msg, y as u64);
            push_str(&mut msg, ").");
        }
        assert(msg@ =~= resize_message(x, y));
        let ghost base = frame@;
        proof { lemma_drawn_start(base); }
        let ghost s0 = Seq::<CmdView>::empty();
        emit(frame, Cmd::ClearScreen, Ghost(base), Ghost(s0));
        let ghost s1 = s0.push(CmdView::ClearScreen);
        emit(frame, Cmd::MoveTo(0, 0), Ghost(base), Ghost(s1));
        let ghost s2 = s1.push(CmdView::MoveTo(0, 0));
        emit(frame, Cmd::Print(Printable::String(msg)), Ghost(base), Ghost(s2));
        let ghost s3 = s2.push(CmdView::PrintText(resize_message(x, y)));
        emit(frame, Cmd::HideCursor, Ghost(base), Ghost(s3));
        assert(s3.push(CmdView::HideCursor) =~= seq![
            CmdView::ClearScreen,
            CmdView::MoveTo(0, 0),
            CmdView::PrintText(resize_message(x, y)),
            CmdView::HideCursor,
        ]);
        Ok(())
    }
}


/// The kind of border drawn around a screen.
#[derive(PartialEq, Eq, Clone, Copy, Debug, Structural)]
pub enum FrameType {
    SimpleEmptyInside,
    Location(Location),
}

/// The top border line of a screen.
pub open spec fn border_top(ft: FrameType) -> Seq<char> {
    match ft {
        FrameType::SimpleEmptyInside => SIMPLE_HORIZONTAL_FULL@,
        FrameType::Location(l) => match l {
            Location::London => LONDON_HORIZONTAL_TOP@,
            Location::Savannah => SAVANNAH_HORIZONTAL_TOP@,
            Location::Lisbon => LISBON_HORIZONTAL_TOP@,
            Location::Amsterdam => AMSTERDAM_HORIZONTAL_TOP@,
            Location::CapeTown => CAPETOWN_HORIZONTAL_TOP@,
            Location::Venice => VENICE_HORIZONTAL_TOP@,
        },
    }
}

/// The bottom border line of a screen.
pub open spec fn border_bottom(ft: FrameType) -> Seq<char> {
    match ft {
        FrameType::SimpleEmptyInside => SIMPLE_HORIZONTAL_FULL@,
        FrameType::Location(l) => match l {
            Location::London => LONDON_HORIZONTAL_BOT@,
            Location::Savannah => SAVANNAH_HORIZONTAL_BOT@,
            Location::Lisbon => LISBON_HORIZONTAL_BOT@,
            Location::Amsterdam => AMSTERDAM_HORIZONTAL_BOT@,
            Location::CapeTown => CAPETOWN_HORIZONTAL_BOT@,
            Location::Venice => VENICE_HORIZONTAL_BOT@,
        },
    }
}

/// The dividing line of a port's screen (the plain screen has none).
pub open spec fn border_mid(ft: FrameType) -> Option<Seq<char>> {
    match ft {
        FrameType::SimpleEmptyInside => None,
        FrameType::Location(l) => Some(
            match l {
                Location::London => LONDON_HORIZONTAL_MID@,
                Location::Savannah => SAVANNAH_HORIZONTAL_MID@,
                Location::Lisbon => LISBON_HORIZONTAL_MID@,
                Location::Amsterdam => AMSTERDAM_HORIZONTAL_MID@,
                Location::CapeTown => CAPETOWN_HORIZONTAL_MID@,
                Location::Venice => VENICE_HORIZONTAL_MID@,
            },
        ),
    }
}

/// The characters repeated down the left border.
pub open spec fn border_left(ft: FrameType) -> Seq<char> {
    match ft {
        FrameType::SimpleEmptyInside => seq!['|'],
        FrameType::Location(l) => match l {
            Location::London => seq![')', '|', '(', '|'],
            Location::Savannah => seq!['├', '┤'],
            Location::Lisbon => seq!['▚', '▞'],
            Location::Amsterdam => seq!['◊'],
            Location::CapeTown => seq!['○', '●'],
            Location::Venice => seq!['╳'],
        },
    }
}

/// The characters repeated down the right border.
pub open spec fn border_right(ft: FrameType) -> Seq<char> {
    match ft {
        FrameType::SimpleEmptyInside => seq!['|'],
        FrameType::Location(l) => match l {
            Location::London => seq!['(', '|', ')', '|'],
            Location::Savannah => seq!['┤', '├'],
            Location::Lisbon => seq!['▞', '▚'],
            Location::Amsterdam => seq!['◊'],
            Location::CapeTown => seq!['○', '●'],
            Location::Venice => seq!['╳'],
        },
    }
}

/// The character at position `i` of an endless repetition of `chars`.
pub open spec fn cycled(chars: Seq<char>, i: int) -> char {
    chars[i % (chars.len() as int)]
}

/// The drawing of `n` characters down a column, cycling through `chars`: each
/// printed, then the cursor moved down and back.
pub open spec fn vertical_view(chars: Seq<char>, n: nat) -> Seq<CmdView>
    decreases n,
{
    if n == 0 || chars.len() == 0 {
        Seq::empty()
    } else {
        vertical_view(chars, (n - 1) as nat).push(CmdView::PrintChar(cycled(chars, n - 1))).push(
            CmdView::MoveDown(1),
        ).push(CmdView::MoveLeft(1))
    }
}

/// The drawing of a screen's border: the top and bottom lines, the left and
/// right columns, and a port's dividing line.
pub open spec fn scene_frame_view(ft: FrameType) -> Seq<CmdView> {
    seq![
        CmdView::MoveTo(0, 0),
        CmdView::PrintText(border_top(ft)),
        CmdView::MoveTo(0, FRAME_HEIGHT),
        CmdView::PrintText(border_bottom(ft)),
        CmdView::MoveTo(0, 1),
    ] + vertical_view(border_left(ft), (FRAME_HEIGHT - 1) as nat) + seq![CmdView::MoveTo((FRAME_WIDTH - 1) as u16, 1)]
        + vertical_view(border_right(ft), (FRAME_HEIGHT - 1) as nat) + match border_mid(ft) {
        Some(m) => seq![CmdView::MoveTo(1, LOCATION_DIVIDER_Y), CmdView::PrintText(m)],
        None => Seq::empty(),
    }
}

/// The border lines and characters of a kind of screen.
fn border_parts(ft: FrameType) -> (r: (&'static str, &'static str, Option<&'static str>, Vec<char>, Vec<char>))
    ensures
        r.0@ == border_top(ft),
        r.1@ == border_bottom(ft),
        match r.2 {
            Some(m) => border_mid(ft) == Some(m@),
            None => border_mid(ft) is None,
        },
        r.3@ == border_left(ft),
        r.4@ == border_right(ft),
{
    let r = match ft {
        FrameType::SimpleEmptyInside => (SIMPLE_HORIZONTAL_FULL, SIMPLE_HORIZONTAL_FULL, None, vec!['|'], vec!['|']),
        FrameType::Location(location) => match location {
            Location::London => (
                LONDON_HORIZONTAL_TOP,
                LONDON_HORIZONTAL_BOT,
                Some(LONDON_HORIZONTAL_MID),
                vec![')', '|', '(', '|'],
                vec!['(', '|', ')', '|'],
            ),
            Location::Savannah => (
                SAVANNAH_HORIZONTAL_TOP,
                SAVANNAH_HORIZONTAL_BOT,
                Some(SAVANNAH_HORIZONTAL_MID),
                vec!['├', '┤'],
                vec!['┤', '├'],
            ),
            Location::Lisbon => (
                LISBON_HORIZONTAL_TOP,
                LISBON_HORIZONTAL_BOT,
                Some(LISBON_HORIZONTAL_MID),
                vec!['▚', '▞'],
                vec!['▞', '▚'],
            ),
            Location::Amsterdam => (
                AMSTERDAM_HORIZONTAL_TOP,
                AMSTERDAM_HORIZONTAL_BOT,
                Some(AMSTERDAM_HORIZONTAL_MID),
                vec!['◊'],
                vec!['◊'],
            ),
            Location::CapeTown => (
                CAPETOWN_HORIZONTAL_TOP,
                CAPETOWN_HORIZONTAL_BOT,
                Some(CAPETOWN_HORIZONTAL_MID),
                vec!['○', '●'],
                vec!['○', '●'],
            ),
            Location::Venice => (
                VENICE_HORIZONTAL_TOP,
                VENICE_HORIZONTAL_BOT,
                Some(VENICE_HORIZONTAL_MID),
                vec!['╳'],
                vec!['╳'],
            ),
        },
    };
    assert(r.3@ =~= border_left(ft));
    assert(r.4@ =~= border_right(ft));
    r
}

/// Appends the drawing of `len` characters down a column; see [vertical_view].
fn emit_vertical(
    frame: &mut Frame,
    chars: &Vec<char>,
    len: u16,
    Ghost(base): Ghost<Seq<Cmd>>,
    Ghost(shown): Ghost<Seq<CmdView>>,
)
    requires
        drawn(old(frame)@, base, shown),
    ensures
        drawn(final(frame)@, base, shown + vertical_view(chars@, len as nat)),
{
    let mut k: u16 = 0;
    assert(shown + vertical_view(chars@, 0) =~= shown);
    while k < len
        invariant
            k <= len,
            drawn(frame@, base, shown + vertical_view(chars@, k as nat)),
        decreases len - k,
    {
        let ghost so_far = shown + vertical_view(chars@, k as nat);
        if chars.len() > 0 {
            let symbol = chars[(k as usize) % chars.len()];
            emit(frame, Cmd::Print(Printable::Char(symbol)), Ghost(base), Ghost(so_far));
            let ghost a = so_far.push(CmdView::PrintChar(symbol));
            emit(frame, Cmd::MoveDown(1), Ghost(base), Ghost(a));
            let ghost b = a.push(CmdView::MoveDown(1));
            emit(frame, Cmd::MoveLeft(1), Ghost(base), Ghost(b));
            proof {
                let n = (k + 1) as nat;
                assert(vertical_view(chars@, n) == vertical_view(chars@, (n - 1) as nat).push(
                    CmdView::PrintChar(cycled(chars@, n - 1)),
                ).push(CmdView::MoveDown(1)).push(CmdView::MoveLeft(1)));
                assert(cycled(chars@, n - 1) == symbol);
                assert(shown + vertical_view(chars@, n) =~= b.push(CmdView::MoveLeft(1)));
            }
        } else {
            assert(vertical_view(chars@, (k + 1) as nat) == Seq::<CmdView>::empty());
            assert(vertical_view(chars@, k as nat) == Seq::<CmdView>::empty());
        }
        k = k + 1;
    }
}

/// The border of a screen.
pub struct SceneFrame(pub FrameType);

impl SceneFrame {
    /// Appends the drawing of this border; see [scene_frame_view].
    pub fn emit_into(&self, frame: &mut Frame, Ghost(base): Ghost<Seq<Cmd>>, Ghost(shown): Ghost<Seq<CmdView>>)
        requires
            drawn(old(frame)@, base, shown),
        ensures
            drawn(final(frame)@, base, shown + scene_frame_view(self.0)),
    {
        let ft = self.0;
        let (top, bot, mid, left, right) = border_parts(ft);
        let ghost s0 = shown;
        emit(frame, Cmd::MoveTo(0, 0), Ghost(base), Ghost(s0));
        let ghost s1 = s0.push(CmdView::MoveTo(0, 0));
        emit_str(frame, top, Ghost(base), Ghost(s1));
        let ghost s2 = s1.push(CmdView::PrintText(top@));
        emit(frame, Cmd::MoveTo(0, FRAME_HEIGHT), Ghost(base), Ghost(s2));
        let ghost s3 = s2.push(CmdView::MoveTo(0, FRAME_HEIGHT));
        emit_str(frame, bot, Ghost(base), Ghost(s3));
        let ghost s4 = s3.push(CmdView::PrintText(bot@));
        emit(frame, Cmd::MoveTo(0, 1), Ghost(base), Ghost(s4));
        let ghost s5 = s4.push(CmdView::MoveTo(0, 1));
        emit_vertical(frame, &left, FRAME_HEIGHT - 1, Ghost(base), Ghost(s5));
        let ghost s6 = s5 + vertical_view(left@, (FRAME_HEIGHT - 1) as nat);
        emit(frame, Cmd::MoveTo(FRAME_WIDTH - 1, 1), Ghost(base), Ghost(s6));
        let ghost s7 = s6.push(CmdView::MoveTo((FRAME_WIDTH - 1) as u16, 1));
        emit_vertical(frame, &right, FRAME_HEIGHT - 1, Ghost(base), Ghost(s7));
        let ghost s8 = s7 + vertical_view(right@, (FRAME_HEIGHT - 1) as nat);
        if let Some(mid) = mid {
            emit(frame, Cmd::MoveTo(1, LOCATION_DIVIDER_Y), Ghost(base), Ghost(s8));
            emit_str(frame, mid, Ghost(base), Ghost(s8.push(CmdView::MoveTo(1, LOCATION_DIVIDER_Y))));
            assert(shown + scene_frame_view(ft) =~= s8.push(CmdView::MoveTo(1, LOCATION_DIVIDER_Y)).push(
                CmdView::PrintText(mid@),
            ));
        } else {
            assert(shown + scene_frame_view(ft) =~= s8);
        }
    }
}

impl Component for SceneFrame {
    open spec fn can_render(&self) -> bool {
        true
    }

    open spec fn draws(&self, cmds: Seq<Cmd>) -> bool {
        cmds_view(cmds) == scene_frame_view(self.0)
    }

    fn render(&self, frame: &mut Frame) -> (r: Result<(), String>)
        ensures
            r is Ok,
    {
        let ghost base = frame@;
        proof { lemma_drawn_start(base); }
        self.emit_into(frame, Ghost(base), Ghost(Seq::empty()));
        assert(Seq::<CmdView>::empty() + scene_frame_view(self.0) =~= scene_frame_view(self.0));
        Ok(())
    }
}


/// Text in the plain style, centered on a row.
fn centered_styled_plain(text: &str, row: u16) -> (r: ScreenCenteredText)
    ensures
        r.view_cmds() == centered_view(
            seq![CmdView::PrintStyled(plain_style(), text@)],
            bytes_total(seq![text@]),
            row,
        ),
{
    let st = ContentStyle::new();
    proof { lemma_style_values(st, Attribute::Bold); }
    let pieces = [StyledContent::new(st, text)];
    let r = ScreenCenteredText::new_styleds(&pieces, row);
    assert(pieces@.map_values(|s: StyledContent<&str>| CmdView::PrintStyled(s.style, s.content@)) =~= seq![
        CmdView::PrintStyled(plain_style(), text@),
    ]);
    assert(pieces@.map_values(|s: StyledContent<&str>| s.content@) =~= seq![text@]);
    r
}

/// Bold text, centered on a row.
fn centered_bold(text: &str, row: u16) -> (r: ScreenCenteredText)
    ensures
        r.view_cmds() == centered_view(
            seq![CmdView::PrintStyled(attribute_style(Attribute::Bold), text@)],
            bytes_total(seq![text@]),
            row,
        ),
{
    let st = ContentStyle::new().attribute(Attribute::Bold);
    proof {
        lemma_style_values(st, Attribute::Bold);
        assert(0u32 | 4u32 == 4u32) by (bit_vector);
    }
    let pieces = [StyledContent::new(st, text)];
    let r = ScreenCenteredText::new_styleds(&pieces, row);
    assert(pieces@.map_values(|s: StyledContent<&str>| CmdView::PrintStyled(s.style, s.content@)) =~= seq![
        CmdView::PrintStyled(attribute_style(Attribute::Bold), text@),
    ]);
    assert(pieces@.map_values(|s: StyledContent<&str>| s.content@) =~= seq![text@]);
    r
}

/// Plain text, then bold text, then plain text, centered together on a row.
fn centered_with_bold(before: &str, bold: &str, after: &str, row: u16) -> (r: ScreenCenteredText)
    ensures
        r.view_cmds() == centered_view(
            seq![
                CmdView::PrintStyled(plain_style(), before@),
                CmdView::PrintStyled(attribute_style(Attribute::Bold), bold@),
                CmdView::PrintStyled(plain_style(), after@),
            ],
            bytes_total(seq![before@, bold@, after@]),
            row,
        ),
{
    let plain = ContentStyle::new();
    let strong = ContentStyle::new().attribute(Attribute::Bold);
    proof {
        lemma_style_values(plain, Attribute::Bold);
        lemma_style_values(strong, Attribute::Bold);
        assert(0u32 | 4u32 == 4u32) by (bit_vector);
    }
    let pieces = [StyledContent::new(plain, before), StyledContent::new(strong, bold), StyledContent::new(plain, after)];
    let r = ScreenCenteredText::new_styleds(&pieces, row);
    assert(pieces@.map_values(|s: StyledContent<&str>| CmdView::PrintStyled(s.style, s.content@)) =~= seq![
        CmdView::PrintStyled(plain_style(), before@),
        CmdView::PrintStyled(attribute_style(Attribute::Bold), bold@),
        CmdView::PrintStyled(plain_style(), after@),
    ]);
    assert(pieces@.map_values(|s: StyledContent<&str>| s.content@) =~= seq![before@, bold@, after@]);
    r
}

/// Plain text centered on a row, the way [centered_str] draws it.
pub open spec fn plain_line(text: Seq<char>, row: u16) -> Seq<CmdView> {
    centered_view(seq![CmdView::PrintText(text)], bytes_total(seq![text]), row)
}

/// Text in the plain style centered on a row, the way [centered_styled_plain] draws it.
pub open spec fn styled_line(text: Seq<char>, row: u16) -> Seq<CmdView> {
    centered_view(seq![CmdView::PrintStyled(plain_style(), text)], bytes_total(seq![text]), row)
}

/// Bold text centered on a row, the way [centered_bold] draws it.
pub open spec fn bold_line(text: Seq<char>, row: u16) -> Seq<CmdView> {
    centered_view(seq![CmdView::PrintStyled(attribute_style(Attribute::Bold), text)], bytes_total(seq![text]), row)
}

/// Plain, bold and plain text centered together on a row.
pub open spec fn mixed_line(before: Seq<char>, bold: Seq<char>, after: Seq<char>, row: u16) -> Seq<CmdView> {
    centered_view(
        seq![
            CmdView::PrintStyled(plain_style(), before),
            CmdView::PrintStyled(attribute_style(Attribute::Bold), bold),
            CmdView::PrintStyled(plain_style(), after),
        ],
        bytes_total(seq![before, bold, after]),
        row,
    )
}

/// Lines of art drawn from column `x` and row `y` down.
pub open spec fn art_view(x: u16, y: u16, lines: Seq<Seq<char>>) -> Seq<CmdView>
    decreases lines.len(),
{
    if lines.len() == 0 {
        Seq::empty()
    } else {
        art_view(x, y, lines.drop_last()).push(CmdView::MoveTo(x, (y + lines.len() - 1) as u16)).push(
            CmdView::PrintText(lines.last()),
        )
    }
}

/// The lines of the title of the splash screen.
pub open spec fn logo_lines() -> Seq<Seq<char>> {
    seq![LOGO_0@, LOGO_1@, LOGO_2@, LOGO_3@, LOGO_4@, LOGO_5@]
}

/// The lines of the title shown when the game is over.
pub open spec fn game_over_lines() -> Seq<Seq<char>> {
    seq![GAME_OVER_0@, GAME_OVER_1@, GAME_OVER_2@, GAME_OVER_3@, GAME_OVER_4@, GAME_OVER_5@]
}

/// Appends lines of art from column `x` and row `y` down.
pub fn emit_art(
    frame: &mut Frame,
    x: u16,
    y: u16,
    lines: &[&'static str],
    Ghost(base): Ghost<Seq<Cmd>>,
    Ghost(shown): Ghost<Seq<CmdView>>,
)
    requires
        drawn(old(frame)@, base, shown),
        y + lines@.len() <= u16::MAX,
    ensures
        drawn(final(frame)@, base, shown + art_view(x, y, lines@.map_values(|l: &'static str| l@))),
{
    let ghost all = lines@.map_values(|l: &'static str| l@);
    let mut i: usize = 0;
    assert(all.take(0) =~= Seq::<Seq<char>>::empty());
    assert(shown + art_view(x, y, all.take(0)) =~= shown);
    while i < lines.len()
        invariant
            i <= lines@.len(),
            y + lines@.len() <= u16::MAX,
            all == lines@.map_values(|l: &'static str| l@),
            drawn(frame@, base, shown + art_view(x, y, all.take(i as int))),
        decreases lines@.len() - i,
    {
        let ghost so_far = shown + art_view(x, y, all.take(i as int));
        emit(frame, Cmd::MoveTo(x, y + i as u16), Ghost(base), Ghost(so_far));
        emit_str(frame, lines[i], Ghost(base), Ghost(so_far.push(CmdView::MoveTo(x, (y + i) as u16))));
        proof {
            assert(all.take(i + 1).drop_last() =~= all.take(i as int));
            assert(all.take(i + 1).last() == lines@[i as int]@);
            assert(shown + art_view(x, y, all.take(i + 1)) =~= so_far.push(CmdView::MoveTo(x, (y + i) as u16)).push(
                CmdView::PrintText(lines@[i as int]@),
            ));
        }
        i = i + 1;
    }
    assert(all.take(lines@.len() as int) =~= all);
}

/// What the splash screen shows: the plain border, the credits, the prompt
/// to begin (bold), how to quit, the cursor hidden, and the title.
pub open spec fn splash_view() -> Seq<CmdView> {
    seq![CmdView::ClearScreen] + scene_frame_view(FrameType::SimpleEmptyInside) + plain_line(
        "A tribute to Drug Wars by samgqroberts"@,
        12,
    ) + plain_line("www.samgqroberts.com"@, 14) + bold_line("Press any key to begin"@, 25) + plain_line(
        "ctrl-c to quit at any time"@,
        29,
    ) + seq![CmdView::HideCursor] + art_view(28, 4, logo_lines())
}

/// The first screen of the game.
pub struct SplashScreen();

impl Component for SplashScreen {
    open spec fn can_render(&self) -> bool {
        true
    }

    open spec fn draws(&self, cmds: Seq<Cmd>) -> bool {
        cmds_view(cmds) == splash_view()
    }

    fn render(&self, frame: &mut Frame) -> (r: Result<(), String>)
        ensures
            r is Ok,
    {
        let ghost base = frame@;
        proof { lemma_drawn_start(base); }
        let ghost s0 = Seq::<CmdView>::empty();
        emit(frame, Cmd::ClearScreen, Ghost(base), Ghost(s0));
        let ghost s1 = s0.push(CmdView::ClearScreen);
        SceneFrame(FrameType::SimpleEmptyInside).emit_into(frame, Ghost(base), Ghost(s1));
        let ghost s2 = s1 + scene_frame_view(FrameType::SimpleEmptyInside);
        centered_str("A tribute to Drug Wars by samgqroberts", 12).emit_into(frame, Ghost(base), Ghost(s2));
        let ghost s3 = s2 + plain_line("A tribute to Drug Wars by samgqroberts"@, 12);
        centered_str("www.samgqroberts.com", 14).emit_into(frame, Ghost(base), Ghost(s3));
        let ghost s4 = s3 + plain_line("www.samgqroberts.com"@, 14);
        centered_bold("Press any key to begin", 25).emit_into(frame, Ghost(base), Ghost(s4));
        let ghost s5 = s4 + bold_line("Press any key to begin"@, 25);
        centered_str("ctrl-c to quit at any time", 29).emit_into(frame, Ghost(base), Ghost(s5));
        let ghost s6 = s5 + plain_line("ctrl-c to quit at any time"@, 29);
        emit(frame, Cmd::HideCursor, Ghost(base), Ghost(s6));
        let ghost s7 = s6.push(CmdView::HideCursor);
        let logo = [LOGO_0, LOGO_1, LOGO_2, LOGO_3, LOGO_4, LOGO_5];
        emit_art(frame, 28, 4, &logo, Ghost(base), Ghost(s7));
        assert(logo@.map_values(|l: &'static str| l@) =~= logo_lines());
        assert(s7 + art_view(28, 4, logo_lines()) =~= splash_view());
        Ok(())
    }
}


/// What the introduction shows: the home port's border, the story with the
/// starting year and the home port in bold, and the prompt to continue.
pub open spec fn introduction_view(home: Location, starting_year: u16) -> Seq<CmdView> {
    seq![CmdView::ClearScreen] + scene_frame_view(FrameType::Location(home)) + mixed_line(
        "The year is "@,
        decimal(starting_year as nat),
        "."@,
        5,
    ) + mixed_line("Your father, a rich merchant captain from "@, location_name(home), ","@, 7) + styled_line(
        "is preparing to retire and he is looking for a successor."@,
        8,
    ) + styled_line("He has issued a challenge to you: build a merchant empire"@, 10) + styled_line(
        "of your own to prove that you are worthy to carry on his legacy."@,
        11,
    ) + mixed_line("You have "@, "three years"@, " to make as much money as possible."@, 14) + styled_line(
        "Fair winds and following seas, captain."@,
        24,
    ) + bold_line("Press any key to continue"@, 27) + seq![CmdView::HideCursor]
}

/// The screen that tells the story of the game.
pub struct IntroductionScreen {
    pub home: Location,
    pub starting_year: u16,
}

impl Component for IntroductionScreen {
    open spec fn can_render(&self) -> bool {
        true
    }

    open spec fn draws(&self, cmds: Seq<Cmd>) -> bool {
        cmds_view(cmds) == introduction_view(self.home, self.starting_year)
    }

    fn render(&self, frame: &mut Frame) -> (r: Result<(), String>)
        ensures
            r is Ok,
    {
        let home = self.home;
        let year = decimal_string(self.starting_year as u64);
        let home_name = home.name();
        let ghost base = frame@;
        proof { lemma_drawn_start(base); }
        let ghost s0 = Seq::<CmdView>::empty();
        emit(frame, Cmd::ClearScreen, Ghost(base), Ghost(s0));
        let ghost s1 = s0.push(CmdView::ClearScreen);
        SceneFrame(FrameType::Location(home)).emit_into(frame, Ghost(base), Ghost(s1));
        let ghost s2 = s1 + scene_frame_view(FrameType::Location(home));
        centered_with_bold("The year is ", year.as_str(), ".", 5).emit_into(frame, Ghost(base), Ghost(s2));
        let ghost s3 = s2 + mixed_line("The year is "@, decimal(self.starting_year as nat), "."@, 5);
        centered_with_bold("Your father, a rich merchant captain from ", home_name.as_str(), ",", 7).emit_into(
            frame,
            Ghost(base),
            Ghost(s3),
        );
        let ghost s4 = s3 + mixed_line("Your father, a rich merchant captain from "@, location_name(home), ","@, 7);
        centered_styled_plain("is preparing to retire and he is looking for a successor.", 8).emit_into(
            frame,
            Ghost(base),
            Ghost(s4),
        );
        let ghost s5 = s4 + styled_line("is preparing to retire and he is looking for a successor."@, 8);
        centered_styled_plain("He has issued a challenge to you: build a merchant empire", 10).emit_into(
            frame,
            Ghost(base),
            Ghost(s5),
        );
        let ghost s6 = s5 + styled_line("He has issued a challenge to you: build a merchant empire"@, 10);
        centered_styled_plain("of your own to prove that you are worthy to carry on his legacy.", 11).emit_into(
            frame,
            Ghost(base),
            Ghost(s6),
        );
        let ghost s7 = s6 + styled_line("of your own to prove that you are worthy to carry on his legacy."@, 11);
        centered_with_bold("You have ", "three years", " to make as much money as possible.", 14).emit_into(
            frame,
            Ghost(base),
            Ghost(s7),
        );
        let ghost s8 = s7 + mixed_line("You have "@, "three years"@, " to make as much money as possible."@, 14);
        centered_styled_plain("Fair winds and following seas, captain.", 24).emit_into(frame, Ghost(base), Ghost(s8));
        let ghost s9 = s8 + styled_line("Fair winds and following seas, captain."@, 24);
        centered_bold("Press any key to continue", 27).emit_into(frame, Ghost(base), Ghost(s9));
        let ghost s10 = s9 + bold_line("Press any key to continue"@, 27);
        emit(frame, Cmd::HideCursor, Ghost(base), Ghost(s10));
        assert(s10.push(CmdView::HideCursor) =~= introduction_view(self.home, self.starting_year));
        Ok(())
    }
}

/// How well the player did, by final net worth.
#[derive(Debug, PartialEq, Eq, Clone, Copy, Structural)]
pub enum AchievementTier {
    InDebt,
    Poor,
    Okay,
    Good,
    Great,
}

/// The tier of a net worth: in debt at zero or below; then poor, ok and good
/// up to fifty times the highest price of rum, of sugar and of tea; great above.
pub open spec fn achievement_tier(net_worth: int, ranges: PriceRanges) -> AchievementTier {
    if net_worth <= 0 {
        AchievementTier::InDebt
    } else if net_worth <= ranges.rum.1 * 50 {
        AchievementTier::Poor
    } else if net_worth <= ranges.sugar.1 * 50 {
        AchievementTier::Okay
    } else if net_worth <= ranges.tea.1 * 50 {
        AchievementTier::Good
    } else {
        AchievementTier::Great
    }
}

/// The tier of a net worth; see [achievement_tier].
fn tier_for(net_worth: i64, ranges: &PriceRanges) -> (r: AchievementTier)
    ensures
        r == achievement_tier(net_worth as int, *ranges),
{
    if net_worth <= 0 {
        AchievementTier::InDebt
    } else if net_worth <= (ranges.rum.1 as i64) * 50 {
        AchievementTier::Poor
    } else if net_worth <= (ranges.sugar.1 as i64) * 50 {
        AchievementTier::Okay
    } else if net_worth <= (ranges.tea.1 as i64) * 50 {
        AchievementTier::Good
    } else {
        AchievementTier::Great
    }
}

impl AchievementTier {
    /// The tier of a net worth; see [achievement_tier].
    pub fn from_net_worth(net_worth: i32, overall_price_ranges: &PriceRanges) -> (r: AchievementTier)
        ensures
            r == achievement_tier(net_worth as int, *overall_price_ranges),
    {
        tier_for(net_worth as i64, overall_price_ranges)
    }
}

/// The two lines that judge a tier.
pub open spec fn tier_lines(t: AchievementTier) -> (Seq<char>, Seq<char>) {
    match t {
        AchievementTier::InDebt => (
            "Obviously, your father is disappointed in you."@,
            "He has made the decision never to retire."@,
        ),
        AchievementTier::Poor => (
            "Your father expected more from you."@,
            "It will likely be a long time before your father retires."@,
        ),
        AchievementTier::Okay => (
            "You showed your father that when you really put your mind to something"@,
            "you can really achieve middling results."@,
        ),
        AchievementTier::Good => (
            "You have done well."@,
            "Your father is confident handing over the reins to you."@,
        ),
        AchievementTier::Great => (
            "Your father never dreamed his child could be this successful."@,
            "He has decided to retire today, handing the full empire over to you."@,
        ),
    }
}

/// The two lines that judge a tier; see [tier_lines].
fn tier_texts(t: AchievementTier) -> (r: (&'static str, &'static str))
    ensures
        (r.0@, r.1@) == tier_lines(t),
{
    match t {
        AchievementTier::InDebt => (
            "Obviously, your father is disappointed in you.",
            "He has made the decision never to retire.",
        ),
        AchievementTier::Poor => (
            "Your father expected more from you.",
            "It will likely be a long time before your father retires.",
        ),
        AchievementTier::Okay => (
            "You showed your father that when you really put your mind to something",
            "you can really achieve middling results.",
        ),
        AchievementTier::Good => ("You have done well.", "Your father is confident handing over the reins to you."),
        AchievementTier::Great => (
            "Your father never dreamed his child could be this successful.",
            "He has decided to retire today, handing the full empire over to you.",
        ),
    }
}

/// The worth of a player at the end: gold in the purse and the bank, less the debt.
pub open spec fn final_net_worth(s: GameState) -> int {
    s.gold + s.bank - s.debt
}

/// The debt a game starts in, net of its gold.
pub open spec fn starting_net_debt() -> int {
    STARTING_GOLD * 3 - STARTING_GOLD
}

/// How the final worth reads: gold held, or gold in debt.
pub open spec fn worth_text(w: int) -> Seq<char> {
    if w >= 0 {
        decimal(w as nat) + " gold"@
    } else {
        decimal((-w) as nat) + " gold in debt"@
    }
}

/// What the end screen shows: the plain border, where the player started and
/// ended (in bold), the judgement of the result, how to go on, and the title.
pub open spec fn game_end_view(s: GameState) -> Seq<CmdView> {
    let w = final_net_worth(s);
    let lines = tier_lines(achievement_tier(w, s.location_config.overall_price_ranges));
    seq![CmdView::ClearScreen, CmdView::HideCursor] + scene_frame_view(FrameType::SimpleEmptyInside) + plain_line(
        "After three years, you went from being"@,
        13,
    ) + bold_line(decimal(starting_net_debt() as nat) + " gold in debt"@, 15) + plain_line(
        "to "@ + (if w >= 0 { "having"@ } else { "being"@ }),
        17,
    ) + bold_line(worth_text(w), 19) + plain_line(lines.0, 23) + plain_line(lines.1, 25) + plain_line(
        "(q) to quit, (Enter) to play again"@,
        29,
    ) + art_view(23, 4, game_over_lines())
}

/// The screen shown when the game is over.
pub struct GameEndScreen<'a>(pub &'a GameState);

impl<'a> Component for GameEndScreen<'a> {
    open spec fn can_render(&self) -> bool {
        true
    }

    open spec fn draws(&self, cmds: Seq<Cmd>) -> bool {
        cmds_view(cmds) == game_end_view(*self.0)
    }

    fn render(&self, frame: &mut Frame) -> (r: Result<(), String>)
        ensures
            r is Ok,
    {
        let state = self.0;
        let starting: u64 = (STARTING_GOLD * 3 - STARTING_GOLD) as u64;
        let w: i64 = state.gold as i64 + state.bank as i64 - state.debt as i64;
        let tier = tier_for(w, &state.location_config.overall_price_ranges);
        let (line_a, line_b) = tier_texts(tier);
        let mut start_text = decimal_string(starting);
        push_str(&mut start_text, " gold in debt");
        let mut to_text = String::new();
        push_str(&mut to_text, "to ");
        if w >= 0 {
            push_str(&mut to_text, "having");
        } else {
            push_str(&mut to_text, "being");
        }
        let mut worth = String::new();
        if w >= 0 {
            push_decimal(&mut worth, w as u64);
            push_str(&mut worth, " gold");
        } else {
            push_decimal(&mut worth, (-w) as u64);
            push_str(&mut worth, " gold in debt");
        }
        let ghost lines = tier_lines(achievement_tier(w as int, state.location_config.overall_price_ranges));
        let ghost base = frame@;
        proof { lemma_drawn_start(base); }
        let ghost s0 = Seq::<CmdView>::empty();
        emit(frame, Cmd::ClearScreen, Ghost(base), Ghost(s0));
        let ghost s1 = s0.push(CmdView::ClearScreen);
        emit(frame, Cmd::HideCursor, Ghost(base), Ghost(s1));
        let ghost s2 = s1.push(CmdView::HideCursor);
        SceneFrame(FrameType::SimpleEmptyInside).emit_into(frame, Ghost(base), Ghost(s2));
        let ghost s3 = s2 + scene_frame_view(FrameType::SimpleEmptyInside);
        centered_str("After three years, you went from being", 13).emit_into(frame, Ghost(base), Ghost(s3));
        let ghost s4 = s3 + plain_line("After three years, you went from being"@, 13);
        centered_bold(start_text.as_str(), 15).emit_into(frame, Ghost(base), Ghost(s4));
        let ghost s5 = s4 + bold_line(start_text@, 15);
        centered_plain(to_text, 17).emit_into(frame, Ghost(base), Ghost(s5));
        let ghost s6 = s5 + plain_line("to "@ + (if w >= 0 { "having"@ } else { "being"@ }), 17);
        centered_bold(worth.as_str(), 19).emit_into(frame, Ghost(base), Ghost(s6));
        let ghost s7 = s6 + bold_line(worth@, 19);
        centered_str(line_a, 23).emit_into(frame, Ghost(base), Ghost(s7));
        let ghost s8 = s7 + plain_line(lines.0, 23);
        centered_str(line_b, 25).emit_into(frame, Ghost(base), Ghost(s8));
        let ghost s9 = s8 + plain_line(lines.1, 25);
        centered_str("(q) to quit, (Enter) to play again", 29).emit_into(frame, Ghost(base), Ghost(s9));
        let ghost s10 = s9 + plain_line("(q) to quit, (Enter) to play again"@, 29);
        let art = [GAME_OVER_0, GAME_OVER_1, GAME_OVER_2, GAME_OVER_3, GAME_OVER_4, GAME_OVER_5];
        emit_art(frame, 23, 4, &art, Ghost(base), Ghost(s10));
        proof {
            assert(art@.map_values(|l: &'static str| l@) =~= game_over_lines());
            assert(start_text@ =~= decimal(starting_net_debt() as nat) + " gold in debt"@);
            assert(worth@ =~= worth_text(final_net_worth(*state)));
            assert(s10 + art_view(23, 4, game_over_lines()) =~= game_end_view(*state));
        }
        Ok(())
    }
}


/// Draws a component into an empty frame and renders it as plain text; `None`
/// where the component fails or its drawing cannot be emulated.
pub fn render_component<T: Component>(x: T) -> (r: Option<String>)
    requires
        x.can_render(),
    ensures
        r matches Some(text) ==> exists|cmds: Seq<Cmd>|
            #![trigger x.draws(cmds)]
            x.draws(cmds) && raw_ok(cmds) && text@ == join_lines(raw_run(cmds).lines),
        x.never_fails() && (forall|cmds: Seq<Cmd>| #[trigger] x.draws(cmds) ==> raw_ok(cmds)) ==> r is Some,
{
    let mut frame = Frame::new();
    match x.render(&mut frame) {
        Ok(()) => {
            if raw_renders(&frame) {
                let out = render_raw(&frame);
                proof {
                    assert(frame@.skip(0) =~= frame@);
                    assert(x.draws(frame@));
                }
                Some(out.result)
            } else {
                None
            }
        },
        Err(_) => None,
    }
}

} // verus!
