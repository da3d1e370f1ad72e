use vstd::prelude::*;

use crate::commands::{Cmd, Commands, Component};
use crate::components::{cmds_view, drawn, emit, lemma_drawn_start, CmdView};
use crate::events::{GoodsStolenResult, NoEffectEvent, CANNON_COST};
use crate::game_state::{hold_left, price_here, GameState, Transaction};
use crate::good::{good_name, Good};
use crate::goods_map::inventory_total;
use crate::location::Location;
use crate::screens::{
    digits_len, emit_placed, emit_str_at, emit_text_at, lemma_decimal_len, number_string, number_text, placed_texts,
    placed_view, text_at,
};
use crate::text::{decimal, push_decimal, push_str, str_chars};

verus! {

/// The column where prompts and dialogs start.
pub const PROMPT_OFFSET_X: u16 = 10;

/// The row where prompts and dialogs start.
pub const PROMPT_OFFSET_Y: u16 = 23;

/// The amount typed so far: nothing, or its digits.
pub open spec fn amount_text(a: Option<u32>) -> Seq<char> {
    match a {
        None => Seq::empty(),
        Some(n) => decimal(n as nat),
    }
}

/// The column just after a prompt that starts at the prompt column; the
/// prompts are ASCII, so their length in characters is their length in bytes.
pub open spec fn prompt_column(prompt: Seq<char>) -> u16 {
    (PROMPT_OFFSET_X + prompt.len()) as u16
}

/// The cursor moved to a place and shown there.
pub open spec fn cursor_view(x: u16, y: u16) -> Seq<CmdView> {
    seq![CmdView::MoveTo(x, y), CmdView::ShowCursor]
}

/// Appends the cursor moved to a place and shown there.
fn emit_cursor(frame: &mut Commands, x: u16, y: u16, Ghost(base): Ghost<Seq<Cmd>>, Ghost(shown): Ghost<Seq<CmdView>>)
    requires
        drawn(old(frame)@, base, shown),
    ensures
        drawn(final(frame)@, base, shown + cursor_view(x, y)),
{
    emit(frame, Cmd::MoveTo(x, y), Ghost(base), Ghost(shown));
    emit(frame, Cmd::ShowCursor, Ghost(base), Ghost(shown.push(CmdView::MoveTo(x, y))));
    assert(shown.push(CmdView::MoveTo(x, y)).push(CmdView::ShowCursor) =~= shown + cursor_view(x, y));
}

/// A prompt followed by the amount typed so far, and the column just after it.
fn typed_prompt(label: &str, amount: Option<u32>) -> (r: (String, u16))
    requires
        label@.len() <= 100,
    ensures
        r.0@ == label@ + amount_text(amount),
        r.1 == prompt_column(label@ + amount_text(amount)),
{
    let mut p = String::new();
    push_str(&mut p, label);
    let mut n: usize = str_chars(label).len();
    match amount {
        Some(a) => {
            push_decimal(&mut p, a as u64);
            proof { lemma_decimal_len(a as nat); }
            n = n + digits_len(a);
        },
        None => {},
    }
    assert(p@ =~= label@ + amount_text(amount));
    (p, 10 + n as u16)
}

/// The name of a good with text before and after it.
pub open spec fn about_good(before: Seq<char>, g: Good, after: Seq<char>) -> Seq<char> {
    before + good_name(g) + after
}

/// See [about_good].
fn about_good_string(before: &str, g: &Good, after: &str) -> (r: String)
    ensures
        r@ == about_good(before@, *g, after@),
{
    let mut r = String::new();
    push_str(&mut r, before);
    let name = g.name();
    push_str(&mut r, name.as_str());
    push_str(&mut r, after);
    r
}

/// A good's name is at most seven characters long.
proof fn lemma_good_name_len(g: Good)
    ensures
        good_name(g).len() <= 7,
{
}

/// The activities offered at a port: buying, selling and sailing; at the
/// home port also the stash and the bank, and paying down the debt while there is one.
pub open spec fn action_items(at_home: bool, debt: u32) -> Seq<(u16, u16, Seq<char>)> {
    seq![(10u16, 23u16, "(1) Buy"@), (10u16, 24u16, "(2) Sell"@), (10u16, 25u16, "(3) Sail"@)] + if at_home {
        seq![
            (10u16, 26u16, "(4) Stash deposit"@),
            (10u16, 27u16, "(5) Stash withdraw"@),
            (10u16, 28u16, "(6) Bank deposit"@),
            (10u16, 29u16, "(7) Bank withdraw"@),
        ] + if debt > 0 {
            seq![(10u16, 30u16, "(8) Pay down debt"@)]
        } else {
            Seq::empty()
        }
    } else {
        Seq::empty()
    }
}

/// The activities offered at a port.
pub struct ViewingInventoryActions<'a> {
    pub location: &'a Location,
    pub home_port: &'a Location,
    pub debt: u32,
}

impl<'a> ViewingInventoryActions<'a> {
    /// Appends the drawing; see [action_items].
    pub fn emit_into(&self, frame: &mut Commands, Ghost(base): Ghost<Seq<Cmd>>, Ghost(shown): Ghost<Seq<CmdView>>)
        requires
            drawn(old(frame)@, base, shown),
        ensures
            drawn(final(frame)@, base, shown + placed_view(action_items(*self.location == *self.home_port, self.debt))),
    {
        let at_home = *self.location == *self.home_port;
        let mut items: Vec<(u16, u16, String)> = Vec::new();
        items.push((10, 23, crate::text::str_to_string("(1) Buy")));
        items.push((10, 24, crate::text::str_to_string("(2) Sell")));
        items.push((10, 25, crate::text::str_to_string("(3) Sail")));
        let ghost first = items@;
        if at_home {
            items.push((10, 26, crate::text::str_to_string("(4) Stash deposit")));
            items.push((10, 27, crate::text::str_to_string("(5) Stash withdraw")));
            items.push((10, 28, crate::text::str_to_string("(6) Bank deposit")));
            items.push((10, 29, crate::text::str_to_string("(7) Bank withdraw")));
            if self.debt > 0 {
                items.push((10, 30, crate::text::str_to_string("(8) Pay down debt")));
            }
        }
        assert(placed_texts(items@) =~= action_items(at_home, self.debt));
        emit_placed(frame, &items, Ghost(base), Ghost(shown));
    }
}

impl<'a> Component for ViewingInventoryActions<'a> {
    open spec fn can_render(&self) -> bool {
        true
    }

    open spec fn draws(&self, cmds: Seq<Cmd>) -> bool {
        cmds_view(cmds) == placed_view(action_items(*self.location == *self.home_port, self.debt))
    }

    fn render(&self, frame: &mut Commands) -> (r: Result<(), String>)
        ensures
            r is Ok,
    {
        let ghost base = frame@;
        let ghost v = placed_view(action_items(*self.location == *self.home_port, self.debt));
        proof { lemma_drawn_start(base); }
        self.emit_into(frame, Ghost(base), Ghost(Seq::empty()));
        assert(Seq::<CmdView>::empty() + v =~= v);
        Ok(())
    }
}

/// The goods to choose from, numbered, one per row from a column and a row.
pub open spec fn good_option_items(x: u16, y: u16) -> Seq<(u16, u16, Seq<char>)> {
    seq![
        (x, y, "(1) Tea"@),
        (x, (y + 1) as u16, "(2) Coffee"@),
        (x, (y + 2) as u16, "(3) Sugar"@),
        (x, (y + 3) as u16, "(4) Tobacco"@),
        (x, (y + 4) as u16, "(5) Rum"@),
        (x, (y + 5) as u16, "(6) Cotton"@),
    ]
}

/// The goods to choose from, listed from a column and a row.
pub struct GoodOptions(pub u16, pub u16);

impl GoodOptions {
    /// Appends the drawing; see [good_option_items].
    pub fn emit_into(&self, frame: &mut Commands, Ghost(base): Ghost<Seq<Cmd>>, Ghost(shown): Ghost<Seq<CmdView>>)
        requires
            drawn(old(frame)@, base, shown),
            self.1 + 5 <= u16::MAX,
        ensures
            drawn(final(frame)@, base, shown + placed_view(good_option_items(self.0, self.1))),
    {
        let x = self.0;
        let y = self.1;
        let items = vec![
            (x, y, crate::text::str_to_string("(1) Tea")),
            (x, y + 1, crate::text::str_to_string("(2) Coffee")),
            (x, y + 2, crate::text::str_to_string("(3) Sugar")),
            (x, y + 3, crate::text::str_to_string("(4) Tobacco")),
            (x, y + 4, crate::text::str_to_string("(5) Rum")),
            (x, y + 5, crate::text::str_to_string("(6) Cotton")),
        ];
        assert(placed_texts(items@) =~= good_option_items(x, y));
        emit_placed(frame, &items, Ghost(base), Ghost(shown));
    }
}

impl Component for GoodOptions {
    open spec fn can_render(&self) -> bool {
        self.1 + 5 <= u16::MAX
    }

    open spec fn draws(&self, cmds: Seq<Cmd>) -> bool {
        cmds_view(cmds) == placed_view(good_option_items(self.0, self.1))
    }

    fn render(&self, frame: &mut Commands) -> (r: Result<(), String>)
        ensures
            r is Ok,
    {
        let ghost base = frame@;
        let ghost v = placed_view(good_option_items(self.0, self.1));
        proof { lemma_drawn_start(base); }
        self.emit_into(frame, Ghost(base), Ghost(Seq::empty()));
        assert(Seq::<CmdView>::empty() + v =~= v);
        Ok(())
    }
}

/// A question over the goods to choose from.
pub open spec fn choose_good_view(question: Seq<char>) -> Seq<CmdView> {
    text_at(PROMPT_OFFSET_X, PROMPT_OFFSET_Y, question) + placed_view(good_option_items(PROMPT_OFFSET_X, 24u16))
}

/// Appends a question over the goods to choose from.
fn emit_choose_good(frame: &mut Commands, question: &str, Ghost(base): Ghost<Seq<Cmd>>, Ghost(shown): Ghost<Seq<CmdView>>)
    requires
        drawn(old(frame)@, base, shown),
    ensures
        drawn(final(frame)@, base, shown + choose_good_view(question@)),
{
    emit_str_at(frame, PROMPT_OFFSET_X, PROMPT_OFFSET_Y, question, Ghost(base), Ghost(shown));
    let ghost s1 = shown + text_at(PROMPT_OFFSET_X, PROMPT_OFFSET_Y, question@);
    GoodOptions(PROMPT_OFFSET_X, 24u16).emit_into(frame, Ghost(base), Ghost(s1));
    assert(s1 + placed_view(good_option_items(PROMPT_OFFSET_X, 24u16)) =~= shown + choose_good_view(question@));
}

/// The question which good to buy.
pub struct BuyPrompt;

impl BuyPrompt {
    /// Appends the drawing; see [choose_good_view].
    pub fn emit_into(&self, frame: &mut Commands, Ghost(base): Ghost<Seq<Cmd>>, Ghost(shown): Ghost<Seq<CmdView>>)
        requires
            drawn(old(frame)@, base, shown),
        ensures
            drawn(final(frame)@, base, shown + choose_good_view("Which do you want to buy?"@)),
    {
        emit_choose_good(frame, "Which do you want to buy?", Ghost(base), Ghost(shown));
    }
}

impl Component for BuyPrompt {
    open spec fn can_render(&self) -> bool {
        true
    }

    open spec fn draws(&self, cmds: Seq<Cmd>) -> bool {
        cmds_view(cmds) == choose_good_view("Which do you want to buy?"@)
    }

    fn render(&self, frame: &mut Commands) -> (r: Result<(), String>)
        ensures
            r is Ok,
    {
        let ghost base = frame@;
        let ghost v = choose_good_view("Which do you want to buy?"@);
        proof { lemma_drawn_start(base); }
        self.emit_into(frame, Ghost(base), Ghost(Seq::empty()));
        assert(Seq::<CmdView>::empty() + v =~= v);
        Ok(())
    }
}

/// The question which good to sell.
pub struct SellPrompt;

impl SellPrompt {
    /// Appends the drawing; see [choose_good_view].
    pub fn emit_into(&self, frame: &mut Commands, Ghost(base): Ghost<Seq<Cmd>>, Ghost(shown): Ghost<Seq<CmdView>>)
        requires
            drawn(old(frame)@, base, shown),
        ensures
            drawn(final(frame)@, base, shown + choose_good_view("Which do you want to sell?"@)),
    {
        emit_choose_good(frame, "Which do you want to sell?", Ghost(base), Ghost(shown));
    }
}

impl Component for SellPrompt {
    open spec fn can_render(&self) -> bool {
        true
    }

    open spec fn draws(&self, cmds: Seq<Cmd>) -> bool {
        cmds_view(cmds) == choose_good_view("Which do you want to sell?"@)
    }

    fn render(&self, frame: &mut Commands) -> (r: Result<(), String>)
        ensures
            r is Ok,
    {
        let ghost base = frame@;
        let ghost v = choose_good_view("Which do you want to sell?"@);
        proof { lemma_drawn_start(base); }
        self.emit_into(frame, Ghost(base), Ghost(Seq::empty()));
        assert(Seq::<CmdView>::empty() + v =~= v);
        Ok(())
    }
}

/// The question which good to put in the stash.
pub struct StashDepositPrompt;

impl StashDepositPrompt {
    /// Appends the drawing; see [choose_good_view].
    pub fn emit_into(&self, frame: &mut Commands, Ghost(base): Ghost<Seq<Cmd>>, Ghost(shown): Ghost<Seq<CmdView>>)
        requires
            drawn(old(frame)@, base, shown),
        ensures
            drawn(final(frame)@, base, shown + choose_good_view("Which do you want to stash?"@)),
    {
        emit_choose_good(frame, "Which do you want to stash?", Ghost(base), Ghost(shown));
    }
}

impl Component for StashDepositPrompt {
    open spec fn can_render(&self) -> bool {
        true
    }

    open spec fn draws(&self, cmds: Seq<Cmd>) -> bool {
        cmds_view(cmds) == choose_good_view("Which do you want to stash?"@)
    }

    fn render(&self, frame: &mut Commands) -> (r: Result<(), String>)
        ensures
            r is Ok,
    {
        let ghost base = frame@;
        let ghost v = choose_good_view("Which do you want to stash?"@);
        proof { lemma_drawn_start(base); }
        self.emit_into(frame, Ghost(base), Ghost(Seq::empty()));
        assert(Seq::<CmdView>::empty() + v =~= v);
        Ok(())
    }
}

/// The question which good to take from the stash.
pub struct StashWithdrawPrompt;

impl StashWithdrawPrompt {
    /// Appends the drawing; see [choose_good_view].
    pub fn emit_into(&self, frame: &mut Commands, Ghost(base): Ghost<Seq<Cmd>>, Ghost(shown): Ghost<Seq<CmdView>>)
        requires
            drawn(old(frame)@, base, shown),
        ensures
            drawn(final(frame)@, base, shown + choose_good_view("Which do you want to withdraw?"@)),
    {
        emit_choose_good(frame, "Which do you want to withdraw?", Ghost(base), Ghost(shown));
    }
}

impl Component for StashWithdrawPrompt {
    open spec fn can_render(&self) -> bool {
        true
    }

    open spec fn draws(&self, cmds: Seq<Cmd>) -> bool {
        cmds_view(cmds) == choose_good_view("Which do you want to withdraw?"@)
    }

    fn render(&self, frame: &mut Commands) -> (r: Result<(), String>)
        ensures
            r is Ok,
    {
        let ghost base = frame@;
        let ghost v = choose_good_view("Which do you want to withdraw?"@);
        proof { lemma_drawn_start(base); }
        self.emit_into(frame, Ghost(base), Ghost(Seq::empty()));
        assert(Seq::<CmdView>::empty() + v =~= v);
        Ok(())
    }
}

/// The question where to sail, and the ports numbered.
pub open spec fn sail_items() -> Seq<(u16, u16, Seq<char>)> {
    seq![
        (10u16, 23u16, "Where do you want to sail?"@),
        (10u16, 24u16, "(1) London"@),
        (10u16, 25u16, "(2) Savannah"@),
        (10u16, 26u16, "(3) Lisbon"@),
        (10u16, 27u16, "(4) Amsterdam"@),
        (10u16, 28u16, "(5) Cape Town"@),
        (10u16, 29u16, "(6) Venice"@),
    ]
}

/// The question where to sail.
pub struct SailPrompt;

impl SailPrompt {
    /// Appends the drawing; see [sail_items].
    pub fn emit_into(&self, frame: &mut Commands, Ghost(base): Ghost<Seq<Cmd>>, Ghost(shown): Ghost<Seq<CmdView>>)
        requires
            drawn(old(frame)@, base, shown),
        ensures
            drawn(final(frame)@, base, shown + placed_view(sail_items())),
    {
        let items = vec![
            (10u16, 23u16, crate::text::str_to_string("Where do you want to sail?")),
            (10u16, 24u16, crate::text::str_to_string("(1) London")),
            (10u16, 25u16, crate::text::str_to_string("(2) Savannah")),
            (10u16, 26u16, crate::text::str_to_string("(3) Lisbon")),
            (10u16, 27u16, crate::text::str_to_string("(4) Amsterdam")),
            (10u16, 28u16, crate::text::str_to_string("(5) Cape Town")),
            (10u16, 29u16, crate::text::str_to_string("(6) Venice")),
        ];
        assert(placed_texts(items@) =~= sail_items());
        emit_placed(frame, &items, Ghost(base), Ghost(shown));
    }
}

impl Component for SailPrompt {
    open spec fn can_render(&self) -> bool {
        true
    }

    open spec fn draws(&self, cmds: Seq<Cmd>) -> bool {
        cmds_view(cmds) == placed_view(sail_items())
    }

    fn render(&self, frame: &mut Commands) -> (r: Result<(), String>)
        ensures
            r is Ok,
    {
        let ghost base = frame@;
        let ghost v = placed_view(sail_items());
        proof { lemma_drawn_start(base); }
        self.emit_into(frame, Ghost(base), Ghost(Seq::empty()));
        assert(Seq::<CmdView>::empty() + v =~= v);
        Ok(())
    }
}

/// Typing an amount of gold or debt: a first line, the prompt with the
/// amount typed so far on the next, and the cursor shown just after it.
pub open spec fn amount_input_view(first: Seq<char>, label: Seq<char>, amount: Option<u32>) -> Seq<CmdView> {
    text_at(PROMPT_OFFSET_X, PROMPT_OFFSET_Y, first) + text_at(PROMPT_OFFSET_X, 24u16, label + amount_text(amount))
        + cursor_view(prompt_column(label + amount_text(amount)), 24u16)
}

/// Appends the typing of an amount; see [amount_input_view].
fn emit_amount_input(
    frame: &mut Commands,
    first: &str,
    label: &str,
    amount: Option<u32>,
    Ghost(base): Ghost<Seq<Cmd>>,
    Ghost(shown): Ghost<Seq<CmdView>>,
)
    requires
        drawn(old(frame)@, base, shown),
        label@.len() <= 100,
    ensures
        drawn(final(frame)@, base, shown + amount_input_view(first@, label@, amount)),
{
    emit_str_at(frame, PROMPT_OFFSET_X, PROMPT_OFFSET_Y, first, Ghost(base), Ghost(shown));
    let ghost s1 = shown + text_at(PROMPT_OFFSET_X, PROMPT_OFFSET_Y, first@);
    let (prompt, column) = typed_prompt(label, amount);
    let ghost p = prompt@;
    emit_text_at(frame, PROMPT_OFFSET_X, 24u16, prompt, Ghost(base), Ghost(s1));
    let ghost s2 = s1 + text_at(PROMPT_OFFSET_X, 24u16, p);
    emit_cursor(frame, column, 24u16, Ghost(base), Ghost(s2));
    assert(s2 + cursor_view(column, 24u16) =~= shown + amount_input_view(first@, label@, amount));
}

/// Typing the amount of gold to put in the bank.
pub struct BankDepositInput<'a>(pub &'a Option<u32>);

impl<'a> BankDepositInput<'a> {
    /// Appends the drawing; see [amount_input_view].
    pub fn emit_into(&self, frame: &mut Commands, Ghost(base): Ghost<Seq<Cmd>>, Ghost(shown): Ghost<Seq<CmdView>>)
        requires
            drawn(old(frame)@, base, shown),
        ensures
            drawn(final(frame)@, base, shown + amount_input_view("How much gold do you want"@, "to deposit in the bank? "@, *self.0)),
    {
        proof { reveal_strlit("to deposit in the bank? "); }
        emit_amount_input(frame, "How much gold do you want", "to deposit in the bank? ", *self.0, Ghost(base), Ghost(shown));
    }
}

impl<'a> Component for BankDepositInput<'a> {
    open spec fn can_render(&self) -> bool {
        true
    }

    open spec fn draws(&self, cmds: Seq<Cmd>) -> bool {
        cmds_view(cmds) == amount_input_view("How much gold do you want"@, "to deposit in the bank? "@, *self.0)
    }

    fn render(&self, frame: &mut Commands) -> (r: Result<(), String>)
        ensures
            r is Ok,
    {
        let ghost base = frame@;
        let ghost v = amount_input_view("How much gold do you want"@, "to deposit in the bank? "@, *self.0);
        proof { lemma_drawn_start(base); }
        self.emit_into(frame, Ghost(base), Ghost(Seq::empty()));
        assert(Seq::<CmdView>::empty() + v =~= v);
        Ok(())
    }
}

/// Typing the amount of gold to take from the bank.
pub struct BankWithdrawInput<'a>(pub &'a Option<u32>);

impl<'a> BankWithdrawInput<'a> {
    /// Appends the drawing; see [amount_input_view].
    pub fn emit_into(&self, frame: &mut Commands, Ghost(base): Ghost<Seq<Cmd>>, Ghost(shown): Ghost<Seq<CmdView>>)
        requires
            drawn(old(frame)@, base, shown),
        ensures
            drawn(final(frame)@, base, shown + amount_input_view("How much gold do you"@, "want to withdraw? "@, *self.0)),
    {
        proof { reveal_strlit("want to withdraw? "); }
        emit_amount_input(frame, "How much gold do you", "want to withdraw? ", *self.0, Ghost(base), Ghost(shown));
    }
}

impl<'a> Component for BankWithdrawInput<'a> {
    open spec fn can_render(&self) -> bool {
        true
    }

    open spec fn draws(&self, cmds: Seq<Cmd>) -> bool {
        cmds_view(cmds) == amount_input_view("How much gold do you"@, "want to withdraw? "@, *self.0)
    }

    fn render(&self, frame: &mut Commands) -> (r: Result<(), String>)
        ensures
            r is Ok,
    {
        let ghost base = frame@;
        let ghost v = amount_input_view("How much gold do you"@, "want to withdraw? "@, *self.0);
        proof { lemma_drawn_start(base); }
        self.emit_into(frame, Ghost(base), Ghost(Seq::empty()));
        assert(Seq::<CmdView>::empty() + v =~= v);
        Ok(())
    }
}

/// Typing the amount of debt to pay down.
pub struct PayDebtInput<'a>(pub &'a Option<u32>);

impl<'a> PayDebtInput<'a> {
    /// Appends the drawing; see [amount_input_view].
    pub fn emit_into(&self, frame: &mut Commands, Ghost(base): Ghost<Seq<Cmd>>, Ghost(shown): Ghost<Seq<CmdView>>)
        requires
            drawn(old(frame)@, base, shown),
        ensures
            drawn(final(frame)@, base, shown + amount_input_view("How much debt do you"@, "want to pay down? "@, *self.0)),
    {
        proof { reveal_strlit("want to pay down? "); }
        emit_amount_input(frame, "How much debt do you", "want to pay down? ", *self.0, Ghost(base), Ghost(shown));
    }
}

impl<'a> Component for PayDebtInput<'a> {
    open spec fn can_render(&self) -> bool {
        true
    }

    open spec fn draws(&self, cmds: Seq<Cmd>) -> bool {
        cmds_view(cmds) == amount_input_view("How much debt do you"@, "want to pay down? "@, *self.0)
    }

    fn render(&self, frame: &mut Commands) -> (r: Result<(), String>)
        ensures
            r is Ok,
    {
        let ghost base = frame@;
        let ghost v = amount_input_view("How much debt do you"@, "want to pay down? "@, *self.0);
        proof { lemma_drawn_start(base); }
        self.emit_into(frame, Ghost(base), Ghost(Seq::empty()));
        assert(Seq::<CmdView>::empty() + v =~= v);
        Ok(())
    }
}

/// Typing an amount of a chosen good: the question naming the good, the
/// prompt with the amount typed so far, how much of it there is, and the
/// cursor shown just after the amount.
pub open spec fn good_amount_view(
    good: Good,
    label: Seq<char>,
    held_label: Seq<char>,
    held: u32,
    amount: Option<u32>,
) -> Seq<CmdView> {
    text_at(PROMPT_OFFSET_X, PROMPT_OFFSET_Y, about_good("How much "@, good, " do you"@)) + text_at(
        PROMPT_OFFSET_X,
        24u16,
        label + amount_text(amount),
    ) + text_at(PROMPT_OFFSET_X, 25u16, number_text(held_label, held as nat, ")"@)) + cursor_view(
        prompt_column(label + amount_text(amount)),
        24u16,
    )
}

/// Appends the typing of an amount of a good; see [good_amount_view].
fn emit_good_amount(
    frame: &mut Commands,
    good: &Good,
    label: &str,
    held_label: &str,
    held: u32,
    amount: Option<u32>,
    Ghost(base): Ghost<Seq<Cmd>>,
    Ghost(shown): Ghost<Seq<CmdView>>,
)
    requires
        drawn(old(frame)@, base, shown),
        label@.len() <= 100,
    ensures
        drawn(final(frame)@, base, shown + good_amount_view(*good, label@, held_label@, held, amount)),
{
    let question = about_good_string("How much ", good, " do you");
    let ghost q = question@;
    emit_text_at(frame, PROMPT_OFFSET_X, PROMPT_OFFSET_Y, question, Ghost(base), Ghost(shown));
    let ghost s1 = shown + text_at(PROMPT_OFFSET_X, PROMPT_OFFSET_Y, q);
    let (prompt, column) = typed_prompt(label, amount);
    let ghost p = prompt@;
    emit_text_at(frame, PROMPT_OFFSET_X, 24u16, prompt, Ghost(base), Ghost(s1));
    let ghost s2 = s1 + text_at(PROMPT_OFFSET_X, 24u16, p);
    let held_text = number_string(held_label, held as u64, ")");
    let ghost h = held_text@;
    emit_text_at(frame, PROMPT_OFFSET_X, 25u16, held_text, Ghost(base), Ghost(s2));
    let ghost s3 = s2 + text_at(PROMPT_OFFSET_X, 25u16, h);
    emit_cursor(frame, column, 24u16, Ghost(base), Ghost(s3));
    assert(s3 + cursor_view(column, 24u16) =~= shown + good_amount_view(
        *good,
        label@,
        held_label@,
        held,
        amount,
    ));
}

/// Typing the amount of a good to sell, with the amount held.
pub struct SellInput<'a>(pub &'a Transaction, pub &'a u32);

impl<'a> SellInput<'a> {
    /// Appends the drawing; see [good_amount_view].
    pub fn emit_into(&self, frame: &mut Commands, Ghost(base): Ghost<Seq<Cmd>>, Ghost(shown): Ghost<Seq<CmdView>>)
        requires
            drawn(old(frame)@, base, shown),
        ensures
            drawn(final(frame)@, base, shown + good_amount_view(self.0.good, "want to sell? "@, "You have ("@, *self.1, self.0.amount)),
    {
        proof { reveal_strlit("want to sell? "); }
        emit_good_amount(frame, &self.0.good, "want to sell? ", "You have (", *self.1, self.0.amount, Ghost(base), Ghost(shown));
    }
}

impl<'a> Component for SellInput<'a> {
    open spec fn can_render(&self) -> bool {
        true
    }

    open spec fn draws(&self, cmds: Seq<Cmd>) -> bool {
        cmds_view(cmds) == good_amount_view(self.0.good, "want to sell? "@, "You have ("@, *self.1, self.0.amount)
    }

    fn render(&self, frame: &mut Commands) -> (r: Result<(), String>)
        ensures
            r is Ok,
    {
        let ghost base = frame@;
        let ghost v = good_amount_view(self.0.good, "want to sell? "@, "You have ("@, *self.1, self.0.amount);
        proof { lemma_drawn_start(base); }
        self.emit_into(frame, Ghost(base), Ghost(Seq::empty()));
        assert(Seq::<CmdView>::empty() + v =~= v);
        Ok(())
    }
}

/// Typing the amount of a good to put in the stash, with the amount held.
pub struct StashDepositInput<'a>(pub &'a Transaction, pub &'a u32);

impl<'a> StashDepositInput<'a> {
    /// Appends the drawing; see [good_amount_view].
    pub fn emit_into(&self, frame: &mut Commands, Ghost(base): Ghost<Seq<Cmd>>, Ghost(shown): Ghost<Seq<CmdView>>)
        requires
            drawn(old(frame)@, base, shown),
        ensures
            drawn(final(frame)@, base, shown + good_amount_view(self.0.good, "want to stash? "@, "You have ("@, *self.1, self.0.amount)),
    {
        proof { reveal_strlit("want to stash? "); }
        emit_good_amount(frame, &self.0.good, "want to stash? ", "You have (", *self.1, self.0.amount, Ghost(base), Ghost(shown));
    }
}

impl<'a> Component for StashDepositInput<'a> {
    open spec fn can_render(&self) -> bool {
        true
    }

    open spec fn draws(&self, cmds: Seq<Cmd>) -> bool {
        cmds_view(cmds) == good_amount_view(self.0.good, "want to stash? "@, "You have ("@, *self.1, self.0.amount)
    }

    fn render(&self, frame: &mut Commands) -> (r: Result<(), String>)
        ensures
            r is Ok,
    {
        let ghost base = frame@;
        let ghost v = good_amount_view(self.0.good, "want to stash? "@, "You have ("@, *self.1, self.0.amount);
        proof { lemma_drawn_start(base); }
        self.emit_into(frame, Ghost(base), Ghost(Seq::empty()));
        assert(Seq::<CmdView>::empty() + v =~= v);
        Ok(())
    }
}

/// Typing the amount of a good to take from the stash, with the amount in it.
pub struct StashWithdrawInput<'a>(pub &'a Transaction, pub &'a u32);

impl<'a> StashWithdrawInput<'a> {
    /// Appends the drawing; see [good_amount_view].
    pub fn emit_into(&self, frame: &mut Commands, Ghost(base): Ghost<Seq<Cmd>>, Ghost(shown): Ghost<Seq<CmdView>>)
        requires
            drawn(old(frame)@, base, shown),
        ensures
            drawn(final(frame)@, base, shown + good_amount_view(self.0.good, "want to withdraw? "@, "There are ("@, *self.1, self.0.amount)),
    {
        proof { reveal_strlit("want to withdraw? "); }
        emit_good_amount(frame, &self.0.good, "want to withdraw? ", "There are (", *self.1, self.0.amount, Ghost(base), Ghost(shown));
    }
}

impl<'a> Component for StashWithdrawInput<'a> {
    open spec fn can_render(&self) -> bool {
        true
    }

    open spec fn draws(&self, cmds: Seq<Cmd>) -> bool {
        cmds_view(cmds) == good_amount_view(self.0.good, "want to withdraw? "@, "There are ("@, *self.1, self.0.amount)
    }

    fn render(&self, frame: &mut Commands) -> (r: Result<(), String>)
        ensures
            r is Ok,
    {
        let ghost base = frame@;
        let ghost v = good_amount_view(self.0.good, "want to withdraw? "@, "There are ("@, *self.1, self.0.amount);
        proof { lemma_drawn_start(base); }
        self.emit_into(frame, Ghost(base), Ghost(Seq::empty()));
        assert(Seq::<CmdView>::empty() + v =~= v);
        Ok(())
    }
}

/// Typing the amount of a good to buy: the question with the amount typed
/// so far, how many the gold buys at `price`, how many the hold takes where
/// that is fewer, and the cursor shown just after the amount.
pub open spec fn buy_input_view(good: Good, amount: Option<u32>, gold: u32, price: u32, space: int) -> Seq<CmdView> {
    let prompt = about_good("How much "@, good, " do you want? "@) + amount_text(amount);
    let afford = gold / price;
    text_at(PROMPT_OFFSET_X, PROMPT_OFFSET_Y, prompt) + text_at(
        PROMPT_OFFSET_X,
        24u16,
        number_text("You can afford ("@, afford as nat, ")"@),
    ) + (if space < afford {
        text_at(PROMPT_OFFSET_X, 25u16, number_text("You have space for ("@, space as nat, ")"@))
    } else {
        Seq::empty()
    }) + cursor_view(prompt_column(prompt), PROMPT_OFFSET_Y)
}

/// Typing the amount of a good to buy.
pub struct BuyInput<'a> {
    pub info: &'a Transaction,
    pub state: &'a GameState,
}

impl<'a> BuyInput<'a> {
    /// Appends the drawing; see [buy_input_view].
    pub fn emit_into(&self, frame: &mut Commands, Ghost(base): Ghost<Seq<Cmd>>, Ghost(shown): Ghost<Seq<CmdView>>)
        requires
            drawn(old(frame)@, base, shown),
            price_here(*self.state, self.info.good) > 0,
            inventory_total(self.state.inventory) <= u32::MAX,
        ensures
            drawn(final(frame)@, base, shown + buy_input_view(self.info.good, self.info.amount, self.state.gold, price_here(*self.state, self.info.good), hold_left(*self.state))),
    {
        let state = self.state;
        let good = self.info.good;
        let price = *state.locations.location_info(&state.location).prices.get_good(&good);
        let label = about_good_string("How much ", &good, " do you want? ");
        proof {
            reveal_strlit("How much ");
            reveal_strlit(" do you want? ");
            lemma_good_name_len(good);
        }
        let (prompt, column) = typed_prompt(label.as_str(), self.info.amount);
        let ghost p = prompt@;
        emit_text_at(frame, PROMPT_OFFSET_X, PROMPT_OFFSET_Y, prompt, Ghost(base), Ghost(shown));
        let ghost s1 = shown + text_at(PROMPT_OFFSET_X, PROMPT_OFFSET_Y, p);
        let can_afford = state.gold / price;
        let afford_text = number_string("You can afford (", can_afford as u64, ")");
        let ghost a = afford_text@;
        emit_text_at(frame, PROMPT_OFFSET_X, 24u16, afford_text, Ghost(base), Ghost(s1));
        let ghost s2 = s1 + text_at(PROMPT_OFFSET_X, 24u16, a);
        let remaining_hold = state.remaining_hold();
        let ghost s3 = s2 + if remaining_hold < can_afford {
            text_at(PROMPT_OFFSET_X, 25u16, number_text("You have space for ("@, remaining_hold as nat, ")"@))
        } else {
            Seq::<CmdView>::empty()
        };
        if remaining_hold < can_afford {
            let space_text = number_string("You have space for (", remaining_hold as u64, ")");
            emit_text_at(frame, PROMPT_OFFSET_X, 25u16, space_text, Ghost(base), Ghost(s2));
        } else {
            assert(s3 =~= s2);
        }
        emit_cursor(frame, column, PROMPT_OFFSET_Y, Ghost(base), Ghost(s3));
        assert(s3 + cursor_view(column, PROMPT_OFFSET_Y) =~= shown + buy_input_view(
            good,
            self.info.amount,
            state.gold,
            price,
            hold_left(*state),
        ));
    }
}

impl<'a> Component for BuyInput<'a> {
    open spec fn can_render(&self) -> bool {
        price_here(*self.state, self.info.good) > 0 && inventory_total(self.state.inventory) <= u32::MAX
    }

    open spec fn draws(&self, cmds: Seq<Cmd>) -> bool {
        cmds_view(cmds) == buy_input_view(self.info.good, self.info.amount, self.state.gold, price_here(*self.state, self.info.good), hold_left(*self.state))
    }

    fn render(&self, frame: &mut Commands) -> (r: Result<(), String>)
        ensures
            r is Ok,
    {
        let ghost base = frame@;
        let ghost v = buy_input_view(self.info.good, self.info.amount, self.state.gold, price_here(*self.state, self.info.good), hold_left(*self.state));
        proof { lemma_drawn_start(base); }
        self.emit_into(frame, Ghost(base), Ghost(Seq::empty()));
        assert(Seq::<CmdView>::empty() + v =~= v);
        Ok(())
    }
}


/// The news that a good is cheap at this port.
pub struct CheapGoodDialog<'a>(pub &'a Good);

impl<'a> CheapGoodDialog<'a> {
    /// Appends the drawing; the news on the first row of the prompts.
    pub fn emit_into(&self, frame: &mut Commands, Ghost(base): Ghost<Seq<Cmd>>, Ghost(shown): Ghost<Seq<CmdView>>)
        requires
            drawn(old(frame)@, base, shown),
        ensures
            drawn(final(frame)@, base, shown + text_at(PROMPT_OFFSET_X, PROMPT_OFFSET_Y, about_good("Cheap "@, *self.0, " here!"@))),
    {
        let t = about_good_string("Cheap ", self.0, " here!");
        emit_text_at(frame, PROMPT_OFFSET_X, PROMPT_OFFSET_Y, t, Ghost(base), Ghost(shown));
    }
}

impl<'a> Component for CheapGoodDialog<'a> {
    open spec fn can_render(&self) -> bool {
        true
    }

    open spec fn draws(&self, cmds: Seq<Cmd>) -> bool {
        cmds_view(cmds) == text_at(PROMPT_OFFSET_X, PROMPT_OFFSET_Y, about_good("Cheap "@, *self.0, " here!"@))
    }

    fn render(&self, frame: &mut Commands) -> (r: Result<(), String>)
        ensures
            r is Ok,
    {
        let ghost base = frame@;
        let ghost v = text_at(PROMPT_OFFSET_X, PROMPT_OFFSET_Y, about_good("Cheap "@, *self.0, " here!"@));
        proof { lemma_drawn_start(base); }
        self.emit_into(frame, Ghost(base), Ghost(Seq::empty()));
        assert(Seq::<CmdView>::empty() + v =~= v);
        Ok(())
    }
}

/// The news that a good is dear at this port.
pub struct ExpensiveGoodDialog<'a>(pub &'a Good);

impl<'a> ExpensiveGoodDialog<'a> {
    /// Appends the drawing; the news on the first row of the prompts.
    pub fn emit_into(&self, frame: &mut Commands, Ghost(base): Ghost<Seq<Cmd>>, Ghost(shown): Ghost<Seq<CmdView>>)
        requires
            drawn(old(frame)@, base, shown),
        ensures
            drawn(final(frame)@, base, shown + text_at(PROMPT_OFFSET_X, PROMPT_OFFSET_Y, about_good("Expensive "@, *self.0, " here!"@))),
    {
        let t = about_good_string("Expensive ", self.0, " here!");
        emit_text_at(frame, PROMPT_OFFSET_X, PROMPT_OFFSET_Y, t, Ghost(base), Ghost(shown));
    }
}

impl<'a> Component for ExpensiveGoodDialog<'a> {
    open spec fn can_render(&self) -> bool {
        true
    }

    open spec fn draws(&self, cmds: Seq<Cmd>) -> bool {
        cmds_view(cmds) == text_at(PROMPT_OFFSET_X, PROMPT_OFFSET_Y, about_good("Expensive "@, *self.0, " here!"@))
    }

    fn render(&self, frame: &mut Commands) -> (r: Result<(), String>)
        ensures
            r is Ok,
    {
        let ghost base = frame@;
        let ghost v = text_at(PROMPT_OFFSET_X, PROMPT_OFFSET_Y, about_good("Expensive "@, *self.0, " here!"@));
        proof { lemma_drawn_start(base); }
        self.emit_into(frame, Ghost(base), Ghost(Seq::empty()));
        assert(Seq::<CmdView>::empty() + v =~= v);
        Ok(())
    }
}

/// Goods found on arrival: how many of which good, and the room left in the
/// hold where it is less than that.
pub open spec fn find_goods_view(good: Good, amount: u32, space: int) -> Seq<CmdView> {
    text_at(PROMPT_OFFSET_X, PROMPT_OFFSET_Y, number_text("You randomly find "@, amount as nat, " "@ + good_name(good) + "!"@))
        + if space < amount {
        text_at(PROMPT_OFFSET_X, 24u16, number_text("You have space for ("@, space as nat, ")"@))
    } else {
        Seq::empty()
    }
}

/// Goods found on arrival.
pub struct FindGoodsDialog<'a>(pub &'a Good, pub &'a u32, pub &'a GameState);

impl<'a> FindGoodsDialog<'a> {
    /// Appends the drawing; see [find_goods_view].
    pub fn emit_into(&self, frame: &mut Commands, Ghost(base): Ghost<Seq<Cmd>>, Ghost(shown): Ghost<Seq<CmdView>>)
        requires
            drawn(old(frame)@, base, shown),
            inventory_total(self.2.inventory) <= u32::MAX,
        ensures
            drawn(final(frame)@, base, shown + find_goods_view(*self.0, *self.1, hold_left(*self.2))),
    {
        let ending = about_good_string(" ", self.0, "!");
        let mut found = String::new();
        push_str(&mut found, "You randomly find ");
        push_decimal(&mut found, *self.1 as u64);
        push_str(&mut found, ending.as_str());
        let ghost f = found@;
        assert(f =~= number_text("You randomly find "@, *self.1 as nat, " "@ + good_name(*self.0) + "!"@));
        emit_text_at(frame, PROMPT_OFFSET_X, PROMPT_OFFSET_Y, found, Ghost(base), Ghost(shown));
        let ghost s1 = shown + text_at(PROMPT_OFFSET_X, PROMPT_OFFSET_Y, f);
        let remaining_hold = self.2.remaining_hold();
        if remaining_hold < *self.1 {
            let space_text = number_string("You have space for (", remaining_hold as u64, ")");
            emit_text_at(frame, PROMPT_OFFSET_X, 24, space_text, Ghost(base), Ghost(s1));
        } else {
            assert(s1 + Seq::<CmdView>::empty() =~= s1);
        }
        assert(s1 + (if remaining_hold < *self.1 {
            text_at(PROMPT_OFFSET_X, 24u16, number_text("You have space for ("@, remaining_hold as nat, ")"@))
        } else {
            Seq::empty()
        }) =~= shown + find_goods_view(*self.0, *self.1, hold_left(*self.2)));
    }
}

impl<'a> Component for FindGoodsDialog<'a> {
    open spec fn can_render(&self) -> bool {
        inventory_total(self.2.inventory) <= u32::MAX
    }

    open spec fn draws(&self, cmds: Seq<Cmd>) -> bool {
        cmds_view(cmds) == find_goods_view(*self.0, *self.1, hold_left(*self.2))
    }

    fn render(&self, frame: &mut Commands) -> (r: Result<(), String>)
        ensures
            r is Ok,
    {
        let ghost base = frame@;
        let ghost v = find_goods_view(*self.0, *self.1, hold_left(*self.2));
        proof { lemma_drawn_start(base); }
        self.emit_into(frame, Ghost(base), Ghost(Seq::empty()));
        assert(Seq::<CmdView>::empty() + v =~= v);
        Ok(())
    }
}

/// What thieves took: nothing, or an amount of a good, on two rows.
pub open spec fn goods_stolen_items(r: GoodsStolenResult) -> Seq<(u16, u16, Seq<char>)> {
    match r {
        GoodsStolenResult::NothingStolen => seq![
            (10u16, 23u16, "Thieves were on the prowl, but they"@),
            (10u16, 24u16, "couldn't find anything to steal"@),
        ],
        GoodsStolenResult::WasStolen { good, amount } => seq![
            (10u16, 23u16, "Prowling harbor thieves stole"@),
            (10u16, 24u16, number_text(""@, amount as nat, " "@ + good_name(good) + " from you!"@)),
        ],
    }
}

/// What thieves took on arrival.
pub struct GoodsStolenDialog(pub GoodsStolenResult);

impl GoodsStolenDialog {
    /// Appends the drawing; see [goods_stolen_items].
    pub fn emit_into(&self, frame: &mut Commands, Ghost(base): Ghost<Seq<Cmd>>, Ghost(shown): Ghost<Seq<CmdView>>)
        requires
            drawn(old(frame)@, base, shown),
        ensures
            drawn(final(frame)@, base, shown + placed_view(goods_stolen_items(self.0))),
    {
        let items = match self.0 {
            GoodsStolenResult::NothingStolen => vec![
                (10u16, 23u16, crate::text::str_to_string("Thieves were on the prowl, but they")),
                (10u16, 24u16, crate::text::str_to_string("couldn't find anything to steal")),
            ],
            GoodsStolenResult::WasStolen { good, amount } => {
                let ending = about_good_string(" ", &good, " from you!");
                vec![
                    (10u16, 23u16, crate::text::str_to_string("Prowling harbor thieves stole")),
                    (10u16, 24u16, number_string("", amount as u64, ending.as_str())),
                ]
            },
        };
        assert(placed_texts(items@) =~= goods_stolen_items(self.0));
        emit_placed(frame, &items, Ghost(base), Ghost(shown));
    }
}

impl Component for GoodsStolenDialog {
    open spec fn can_render(&self) -> bool {
        true
    }

    open spec fn draws(&self, cmds: Seq<Cmd>) -> bool {
        cmds_view(cmds) == placed_view(goods_stolen_items(self.0))
    }

    fn render(&self, frame: &mut Commands) -> (r: Result<(), String>)
        ensures
            r is Ok,
    {
        let ghost base = frame@;
        let ghost v = placed_view(goods_stolen_items(self.0));
        proof { lemma_drawn_start(base); }
        self.emit_into(frame, Ghost(base), Ghost(Seq::empty()));
        assert(Seq::<CmdView>::empty() + v =~= v);
        Ok(())
    }
}

/// The offer of one more cannon at its price, and the question to accept it.
pub open spec fn cannon_offer_items() -> Seq<(u16, u16, Seq<char>)> {
    seq![
        (10u16, 23u16, "An enterprising gentleman on the docks"@),
        (10u16, 24u16, "offers to outfit your ship with an"@),
        (10u16, 25u16, number_text("additional cannon for "@, CANNON_COST as nat, " gold."@)),
        (10u16, 26u16, "Accept? y/n"@),
    ]
}

/// The offer of one more cannon.
pub struct CanBuyCannon;

impl CanBuyCannon {
    /// Appends the drawing; see [cannon_offer_items].
    pub fn emit_into(&self, frame: &mut Commands, Ghost(base): Ghost<Seq<Cmd>>, Ghost(shown): Ghost<Seq<CmdView>>)
        requires
            drawn(old(frame)@, base, shown),
        ensures
            drawn(final(frame)@, base, shown + placed_view(cannon_offer_items())),
    {
        let items = vec![
            (10u16, 23u16, crate::text::str_to_string("An enterprising gentleman on the docks")),
            (10u16, 24u16, crate::text::str_to_string("offers to outfit your ship with an")),
            (10u16, 25u16, number_string("additional cannon for ", CANNON_COST as u64, " gold.")),
            (10u16, 26u16, crate::text::str_to_string("Accept? y/n")),
        ];
        assert(placed_texts(items@) =~= cannon_offer_items());
        emit_placed(frame, &items, Ghost(base), Ghost(shown));
    }
}

impl Component for CanBuyCannon {
    open spec fn can_render(&self) -> bool {
        true
    }

    open spec fn draws(&self, cmds: Seq<Cmd>) -> bool {
        cmds_view(cmds) == placed_view(cannon_offer_items())
    }

    fn render(&self, frame: &mut Commands) -> (r: Result<(), String>)
        ensures
            r is Ok,
    {
        let ghost base = frame@;
        let ghost v = placed_view(cannon_offer_items());
        proof { lemma_drawn_start(base); }
        self.emit_into(frame, Ghost(base), Ghost(Seq::empty()));
        assert(Seq::<CmdView>::empty() + v =~= v);
        Ok(())
    }
}

/// The offer of more room in the hold: how much, at what price, and the question to accept it.
pub open spec fn hold_offer_items(price: u32, more_hold: u32) -> Seq<(u16, u16, Seq<char>)> {
    seq![
        (10u16, 23u16, "A shipwright on the docks offers to"@),
        (10u16, 24u16, number_text("enlarge your hold by "@, more_hold as nat, ""@)),
        (10u16, 25u16, number_text("for "@, price as nat, " gold."@)),
        (10u16, 26u16, "Accept? y/n"@),
    ]
}

/// The offer of more room in the hold.
pub struct CanBuyHoldSpace {
    pub price: u32,
    pub more_hold: u32,
}

impl CanBuyHoldSpace {
    /// Appends the drawing; see [hold_offer_items].
    pub fn emit_into(&self, frame: &mut Commands, Ghost(base): Ghost<Seq<Cmd>>, Ghost(shown): Ghost<Seq<CmdView>>)
        requires
            drawn(old(frame)@, base, shown),
        ensures
            drawn(final(frame)@, base, shown + placed_view(hold_offer_items(self.price, self.more_hold))),
    {
        let items = vec![
            (10u16, 23u16, crate::text::str_to_string("A shipwright on the docks offers to")),
            (10u16, 24u16, number_string("enlarge your hold by ", self.more_hold as u64, "")),
            (10u16, 25u16, number_string("for ", self.price as u64, " gold.")),
            (10u16, 26u16, crate::text::str_to_string("Accept? y/n")),
        ];
        assert(placed_texts(items@) =~= hold_offer_items(self.price, self.more_hold));
        emit_placed(frame, &items, Ghost(base), Ghost(shown));
    }
}

impl Component for CanBuyHoldSpace {
    open spec fn can_render(&self) -> bool {
        true
    }

    open spec fn draws(&self, cmds: Seq<Cmd>) -> bool {
        cmds_view(cmds) == placed_view(hold_offer_items(self.price, self.more_hold))
    }

    fn render(&self, frame: &mut Commands) -> (r: Result<(), String>)
        ensures
            r is Ok,
    {
        let ghost base = frame@;
        let ghost v = placed_view(hold_offer_items(self.price, self.more_hold));
        proof { lemma_drawn_start(base); }
        self.emit_into(frame, Ghost(base), Ghost(Seq::empty()));
        assert(Seq::<CmdView>::empty() + v =~= v);
        Ok(())
    }
}

/// The news of a quiet arrival.
pub open spec fn no_effect_text(variant: NoEffectEvent) -> Seq<char> {
    match variant {
        NoEffectEvent::SunnyDay => "The sun shines on a calm harbor."@,
        NoEffectEvent::StormOnHorizon => "A storm gathers on the horizon, but passes you by."@,
    }
}

/// A quiet arrival.
pub struct NoEffect {
    pub variant: NoEffectEvent,
}

impl NoEffect {
    /// Appends the drawing; see [no_effect_text].
    pub fn emit_into(&self, frame: &mut Commands, Ghost(base): Ghost<Seq<Cmd>>, Ghost(shown): Ghost<Seq<CmdView>>)
        requires
            drawn(old(frame)@, base, shown),
        ensures
            drawn(final(frame)@, base, shown + text_at(PROMPT_OFFSET_X, PROMPT_OFFSET_Y, no_effect_text(self.variant))),
    {
        let t = match self.variant {
            NoEffectEvent::SunnyDay => "The sun shines on a calm harbor.",
            NoEffectEvent::StormOnHorizon => "A storm gathers on the horizon, but passes you by.",
        };
        emit_str_at(frame, PROMPT_OFFSET_X, PROMPT_OFFSET_Y, t, Ghost(base), Ghost(shown));
    }
}

impl Component for NoEffect {
    open spec fn can_render(&self) -> bool {
        true
    }

    open spec fn draws(&self, cmds: Seq<Cmd>) -> bool {
        cmds_view(cmds) == text_at(PROMPT_OFFSET_X, PROMPT_OFFSET_Y, no_effect_text(self.variant))
    }

    fn render(&self, frame: &mut Commands) -> (r: Result<(), String>)
        ensures
            r is Ok,
    {
        let ghost base = frame@;
        let ghost v = text_at(PROMPT_OFFSET_X, PROMPT_OFFSET_Y, no_effect_text(self.variant));
        proof { lemma_drawn_start(base); }
        self.emit_into(frame, Ghost(base), Ghost(Seq::empty()));
        assert(Seq::<CmdView>::empty() + v =~= v);
        Ok(())
    }
}

} // verus!
