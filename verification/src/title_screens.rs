use vstd::prelude::*;

use crate::commands::{Cmd, Commands, Component, Printable};
use crate::components::{
    art_view, cmds_view, drawn, emit, emit_art, game_over_lines, lemma_drawn_start, logo_lines, worth_text, CmdView,
    GAME_OVER_0, GAME_OVER_1, GAME_OVER_2, GAME_OVER_3, GAME_OVER_4, GAME_OVER_5, LOGO_0, LOGO_1, LOGO_2, LOGO_3,
    LOGO_4, LOGO_5,
};
use crate::game_state::GameState;
use crate::screens::{border_view, center_text, centered_text, emit_border, emit_str_at, emit_text_at, text_at};
use crate::style::{attribute_style, lemma_style_values, Attribute, ContentStyle, StyledContent};
use crate::text::{push_decimal, push_str};

verus! {

/// The style of bold text.
pub(crate) fn bold_style() -> (r: ContentStyle)
    ensures
        r == attribute_style(Attribute::Bold),
{
    let st = ContentStyle::new().attribute(Attribute::Bold);
    proof {
        lemma_style_values(st, Attribute::Bold);
        assert(0u32 | 4u32 == 4u32) by (bit_vector);
    }
    st
}

/// Bold text printed at a column and a row.
pub open spec fn bold_at(x: u16, y: u16, t: Seq<char>) -> Seq<CmdView> {
    seq![CmdView::MoveTo(x, y), CmdView::PrintStyled(attribute_style(Attribute::Bold), t)]
}

/// Appends bold text printed at a column and a row.
pub(crate) fn emit_bold_at(
    frame: &mut Commands,
    x: u16,
    y: u16,
    text: String,
    Ghost(base): Ghost<Seq<Cmd>>,
    Ghost(shown): Ghost<Seq<CmdView>>,
)
    requires
        drawn(old(frame)@, base, shown),
    ensures
        drawn(final(frame)@, base, shown + bold_at(x, y, text@)),
{
    let ghost t = text@;
    emit(frame, Cmd::MoveTo(x, y), Ghost(base), Ghost(shown));
    let styled = StyledContent::new(bold_style(), text);
    emit(frame, Cmd::Print(Printable::StyledContent(styled)), Ghost(base), Ghost(shown.push(CmdView::MoveTo(x, y))));
    assert(shown.push(CmdView::MoveTo(x, y)).push(CmdView::PrintStyled(attribute_style(Attribute::Bold), t)) =~= shown
        + bold_at(x, y, t));
}

/// Text centered between the posts of the border (ninety-seven characters
/// from the second column), plain.
pub open spec fn centered_row(t: Seq<char>, row: u16) -> Seq<CmdView> {
    text_at(1, row, centered_text(t, 97))
}

/// Text centered between the posts of the border, bold.
pub open spec fn bold_centered_row(t: Seq<char>, row: u16) -> Seq<CmdView> {
    bold_at(1, row, centered_text(t, 97))
}

/// The first screen: the plain border, the credits, the prompt to begin
/// (bold), the cursor hidden, and the title.
pub open spec fn splash_view() -> Seq<CmdView> {
    seq![CmdView::ClearScreen] + border_view(false, false) + text_at(29, 12, "A tribute to Drug Wars by samgqroberts"@)
        + text_at(38, 14, "www.samgqroberts.com"@) + bold_at(37, 25, "Press any key to begin"@) + seq![
        CmdView::HideCursor,
    ] + art_view(27, 4, logo_lines())
}

/// The first screen of the game.
pub struct SplashScreen();

impl SplashScreen {
    /// Appends the drawing; see [splash_view].
    pub fn emit_into(&self, frame: &mut Commands, Ghost(base): Ghost<Seq<Cmd>>, Ghost(shown): Ghost<Seq<CmdView>>)
        requires
            drawn(old(frame)@, base, shown),
        ensures
            drawn(final(frame)@, base, shown + splash_view()),
    {
        emit(frame, Cmd::ClearScreen, Ghost(base), Ghost(shown));
        let ghost s1 = shown.push(CmdView::ClearScreen);
        emit_border(frame, false, false, Ghost(base), Ghost(s1));
        let ghost s2 = s1 + border_view(false, false);
        emit_str_at(frame, 29, 12, "A tribute to Drug Wars by samgqroberts", Ghost(base), Ghost(s2));
        let ghost s3 = s2 + text_at(29, 12, "A tribute to Drug Wars by samgqroberts"@);
        emit_str_at(frame, 38, 14, "www.samgqroberts.com", Ghost(base), Ghost(s3));
        let ghost s4 = s3 + text_at(38, 14, "www.samgqroberts.com"@);
        emit_bold_at(frame, 37, 25, crate::text::str_to_string("Press any key to begin"), Ghost(base), Ghost(s4));
        let ghost s5 = s4 + bold_at(37, 25, "Press any key to begin"@);
        emit(frame, Cmd::HideCursor, Ghost(base), Ghost(s5));
        let ghost s6 = s5.push(CmdView::HideCursor);
        let logo = [LOGO_0, LOGO_1, LOGO_2, LOGO_3, LOGO_4, LOGO_5];
        assert(logo@.map_values(|l: &'static str| l@) =~= logo_lines());
        emit_art(frame, 27, 4, &logo, Ghost(base), Ghost(s6));
        assert(s6 + art_view(27, 4, logo_lines()) =~= shown + splash_view());
    }
}

impl Component for SplashScreen {
    open spec fn can_render(&self) -> bool {
        true
    }

    open spec fn draws(&self, cmds: Seq<Cmd>) -> bool {
        cmds_view(cmds) == splash_view()
    }

    fn render(&self, frame: &mut Commands) -> (r: Result<(), String>)
        ensures
            r is Ok,
    {
        let ghost base = frame@;
        let ghost v = splash_view();
        proof { lemma_drawn_start(base); }
        self.emit_into(frame, Ghost(base), Ghost(Seq::empty()));
        assert(Seq::<CmdView>::empty() + v =~= v);
        Ok(())
    }
}

/// The worth of a player at the end: gold in the purse and the bank, less the debt.
pub open spec fn end_worth(s: GameState) -> int {
    s.gold + s.bank - s.debt
}

/// The end of the game: the plain border, the congratulations, where the
/// player started and ended (bold), and the title.
pub open spec fn game_end_view(s: GameState) -> Seq<CmdView> {
    let w = end_worth(s);
    seq![CmdView::ClearScreen, CmdView::HideCursor] + border_view(false, false) + bold_centered_row(
        "Congratulations!"@,
        14,
    ) + centered_row("After three years, you went from being"@, 20) + bold_centered_row("1400 gold in debt"@, 22)
        + centered_row("to "@ + (if w >= 0 { "having"@ } else { "being"@ }), 24) + bold_centered_row(
        worth_text(w),
        26,
    ) + art_view(23, 4, game_over_lines())
}

/// The screen shown when the game is over.
pub struct GameEndScreen<'a>(pub &'a GameState);

impl<'a> GameEndScreen<'a> {
    /// Appends the drawing; see [game_end_view].
    pub fn emit_into(&self, frame: &mut Commands, Ghost(base): Ghost<Seq<Cmd>>, Ghost(shown): Ghost<Seq<CmdView>>)
        requires
            drawn(old(frame)@, base, shown),
            self.0.gold + self.0.bank <= u32::MAX,
        ensures
            drawn(final(frame)@, base, shown + game_end_view(*self.0)),
    {
        let state = self.0;
        let final_gold: i64 = (state.gold + state.bank) as i64 - state.debt as i64;
        emit(frame, Cmd::ClearScreen, Ghost(base), Ghost(shown));
        emit(frame, Cmd::HideCursor, Ghost(base), Ghost(shown.push(CmdView::ClearScreen)));
        let ghost s1 = shown.push(CmdView::ClearScreen).push(CmdView::HideCursor);
        emit_border(frame, false, false, Ghost(base), Ghost(s1));
        let ghost s2 = s1 + border_view(false, false);
        emit_bold_at(frame, 1, 14, center_text("Congratulations!", 97), Ghost(base), Ghost(s2));
        let ghost s3 = s2 + bold_centered_row("Congratulations!"@, 14);
        emit_text_at(frame, 1, 20, center_text("After three years, you went from being", 97), Ghost(base), Ghost(s3));
        let ghost s4 = s3 + centered_row("After three years, you went from being"@, 20);
        emit_bold_at(frame, 1, 22, center_text("1400 gold in debt", 97), Ghost(base), Ghost(s4));
        let ghost s5 = s4 + bold_centered_row("1400 gold in debt"@, 22);
        let mut to_text = String::new();
        push_str(&mut to_text, "to ");
        if final_gold >= 0 {
            push_str(&mut to_text, "having");
        } else {
            push_str(&mut to_text, "being");
        }
        let ghost to_seq = "to "@ + (if final_gold >= 0 { "having"@ } else { "being"@ });
        assert(to_text@ =~= to_seq);
        emit_text_at(frame, 1, 24, center_text(to_text.as_str(), 97), Ghost(base), Ghost(s5));
        let ghost s6 = s5 + centered_row(to_seq, 24);
        let mut worth = String::new();
        if final_gold >= 0 {
            push_decimal(&mut worth, final_gold as u64);
            push_str(&mut worth, " gold");
        } else {
            push_decimal(&mut worth, (-final_gold) as u64);
            push_str(&mut worth, " gold in debt");
        }
        assert(worth@ =~= worth_text(end_worth(*state)));
        emit_bold_at(frame, 1, 26, center_text(worth.as_str(), 97), Ghost(base), Ghost(s6));
        let ghost s7 = s6 + bold_centered_row(worth_text(end_worth(*state)), 26);
        let art = [GAME_OVER_0, GAME_OVER_1, GAME_OVER_2, GAME_OVER_3, GAME_OVER_4, GAME_OVER_5];
        assert(art@.map_values(|l: &'static str| l@) =~= game_over_lines());
        emit_art(frame, 23, 4, &art, Ghost(base), Ghost(s7));
        assert(s7 + art_view(23, 4, game_over_lines()) =~= shown + game_end_view(*state));
    }
}

impl<'a> Component for GameEndScreen<'a> {
    open spec fn can_render(&self) -> bool {
        self.0.gold + self.0.bank <= u32::MAX
    }

    open spec fn draws(&self, cmds: Seq<Cmd>) -> bool {
        cmds_view(cmds) == game_end_view(*self.0)
    }

    fn render(&self, frame: &mut Commands) -> (r: Result<(), String>)
        ensures
            r is Ok,
    {
        let ghost base = frame@;
        let ghost v = game_end_view(*self.0);
        proof { lemma_drawn_start(base); }
        self.emit_into(frame, Ghost(base), Ghost(Seq::empty()));
        assert(Seq::<CmdView>::empty() + v =~= v);
        Ok(())
    }
}

} // verus!
