use vstd::prelude::*;

use crate::commands::{Cmd, Commands, Component, Printable};
use crate::components::{cmds_view, drawn, emit, lemma_drawn_start, CmdView};
use crate::text::{decimal, push_decimal, push_str, spaces};

verus! {

/// Text preceded by spaces up to `width` characters.
pub open spec fn padded(t: Seq<char>, width: nat) -> Seq<char> {
    if t.len() < width {
        spaces((width - t.len()) as nat) + t
    } else {
        t
    }
}

/// Appends spaces and then the digits of `n`, up to `width` characters.
pub(crate) fn push_padded_decimal(s: &mut String, n: u32, width: usize)
    ensures
        final(s)@ == old(s)@ + padded(decimal(n as nat), width as nat),
{
    let mut digits = String::new();
    push_decimal(&mut digits, n as u64);
    let len = digits_len(n);
    assert(digits@ =~= decimal(n as nat));
    let mut k: usize = len;
    let ghost start = s@;
    while k < width
        invariant
            len == decimal(n as nat).len(),
            len <= k,
            k <= width || len >= width,
            len >= width ==> k == len,
            s@ == start + spaces((k - len) as nat),
        decreases width - k,
    {
        push_str(s, " ");
        proof {
            reveal_strlit(" ");
            assert(spaces((k + 1 - len) as nat) =~= spaces((k - len) as nat).push(' '));
        }
        k = k + 1;
    }
    let ghost before_digits = s@;
    push_str(s, digits.as_str());
    proof {
        assert(s@ == before_digits + decimal(n as nat));
        if len < width {
            assert(k == width);
            assert(padded(decimal(n as nat), width as nat) == spaces((width - len) as nat) + decimal(n as nat));
        } else {
            assert(k == len);
            assert(spaces(0) =~= Seq::<char>::empty());
            assert(padded(decimal(n as nat), width as nat) == decimal(n as nat));
        }
        assert(s@ =~= start + padded(decimal(n as nat), width as nat));
    }
}

/// The number of decimal digits of `n`.
pub(crate) fn digits_len(n: u32) -> (r: usize)
    ensures
        r == decimal(n as nat).len(),
        1 <= r <= 10,
    decreases n,
{
    if n < 10 {
        1
    } else {
        let r = digits_len(n / 10) + 1;
        proof {
            assert(decimal(n as nat) == decimal((n / 10) as nat).push(crate::text::digit_char((n % 10) as nat)));
            assert(n / 10 < 429496730) by (nonlinear_arith)
                requires n <= 0xffff_ffffu32;
            if n / 10 >= 10 {
                assert((n / 10) / 10 < 42949673) by (nonlinear_arith)
                    requires n / 10 < 429496730;
            }
        }
        assert(r <= 10) by {
            lemma_decimal_len(n as nat);
        }
        r
    }
}

/// A number below 10^10 has at most ten digits.
pub proof fn lemma_decimal_len(n: nat)
    requires
        n <= 0xffff_ffff,
    ensures
        decimal(n).len() <= 10,
{
    reveal_with_fuel(pow10, 11);
    assert(pow10(10) == 10_000_000_000);
    lemma_decimal_len_below(n, 10, 10_000_000_000);
}

/// A number below 10^k has at most k digits.
proof fn lemma_decimal_len_below(n: nat, k: nat, p: nat)
    requires
        1 <= k,
        n < p,
        p == pow10(k),
    ensures
        decimal(n).len() <= k,
    decreases k,
{
    if n >= 10 {
        assert(k >= 2) by {
            if k == 1 {
                assert(pow10(1) == 10 * pow10(0));
            }
        }
        let q = pow10((k - 1) as nat);
        assert(p == 10 * q);
        assert(n / 10 < q) by (nonlinear_arith)
            requires n < 10 * q, n >= 0;
        lemma_decimal_len_below(n / 10, (k - 1) as nat, q);
    }
}

/// Ten to the power `k`.
pub open spec fn pow10(k: nat) -> nat
    decreases k,
{
    if k == 0 { 1 } else { 10 * pow10((k - 1) as nat) }
}

/// A number shown in at least four characters, right-aligned.
pub struct Numeric4Digits(pub u32);

impl Numeric4Digits {
    /// The number right-aligned in four characters.
    pub fn to_string(&self) -> (r: String)
        ensures
            r@ == padded(decimal(self.0 as nat), 4),
    {
        let mut r = String::new();
        push_padded_decimal(&mut r, self.0, 4);
        r
    }
}

/// A number shown in at least seven characters, right-aligned.
pub struct Numeric7Digits(pub u32);

impl Numeric7Digits {
    /// The number right-aligned in seven characters.
    pub fn to_string(&self) -> (r: String)
        ensures
            r@ == padded(decimal(self.0 as nat), 7),
    {
        let mut r = String::new();
        push_padded_decimal(&mut r, self.0, 7);
        r
    }
}

/// Text padded with spaces to `width` characters, alternately before and
/// after it (before first when its length is odd).
pub open spec fn centered_text(t: Seq<char>, width: nat) -> Seq<char> {
    let k = if t.len() < width { (width - t.len()) as nat } else { 0nat };
    let before = if t.len() % 2 == 1 { (k + 1) / 2 } else { k / 2 };
    spaces(before as nat) + t + spaces((k - before) as nat)
}


/// Centers text in `width` characters; see [centered_text].
pub(crate) fn center_text(t: &str, width: usize) -> (r: String)
    ensures
        r@ == centered_text(t@, width as nat),
{
    let chars = crate::text::str_chars(t);
    let n = chars.len();
    let k: usize = if n < width { width - n } else { 0 };
    let before: usize = if n % 2 == 1 { (k + 1) / 2 } else { k / 2 };
    let mut r = String::new();
    push_spaces(&mut r, before);
    push_str(&mut r, t);
    push_spaces(&mut r, k - before);
    assert(r@ =~= centered_text(t@, width as nat));
    r
}

/// Appends `n` spaces.
pub(crate) fn push_spaces(s: &mut String, n: usize)
    ensures
        final(s)@ == old(s)@ + spaces(n as nat),
{
    let ghost start = s@;
    let mut k: usize = 0;
    while k < n
        invariant
            k <= n,
            s@ == start + spaces(k as nat),
        decreases n - k,
    {
        crate::text::push_char(s, ' ');
        assert(spaces((k + 1) as nat) =~= spaces(k as nat).push(' '));
        k = k + 1;
    }
}

/// Text printed at a column and a row.
pub open spec fn text_at(x: u16, y: u16, t: Seq<char>) -> Seq<CmdView> {
    Seq::<CmdView>::empty().push(CmdView::MoveTo(x, y)).push(CmdView::PrintText(t))
}

/// Appends text printed at a column and a row.
pub(crate) fn emit_text_at(
    frame: &mut Commands,
    x: u16,
    y: u16,
    text: String,
    Ghost(base): Ghost<Seq<Cmd>>,
    Ghost(shown): Ghost<Seq<CmdView>>,
)
    requires
        drawn(old(frame)@, base, shown),
    ensures
        drawn(final(frame)@, base, shown + text_at(x, y, text@)),
{
    emit(frame, Cmd::MoveTo(x, y), Ghost(base), Ghost(shown));
    let ghost t = text@;
    emit(frame, Cmd::Print(Printable::String(text)), Ghost(base), Ghost(shown.push(CmdView::MoveTo(x, y))));
    assert(shown.push(CmdView::MoveTo(x, y)).push(CmdView::PrintText(t)) =~= shown + text_at(x, y, t));
}

/// Appends a literal printed at a column and a row.
pub(crate) fn emit_str_at(
    frame: &mut Commands,
    x: u16,
    y: u16,
    text: &str,
    Ghost(base): Ghost<Seq<Cmd>>,
    Ghost(shown): Ghost<Seq<CmdView>>,
)
    requires
        drawn(old(frame)@, base, shown),
    ensures
        drawn(final(frame)@, base, shown + text_at(x, y, text@)),
{
    emit_text_at(frame, x, y, crate::text::str_to_string(text), Ghost(base), Ghost(shown));
}

/// A text between two rules at the top center of the screen.
pub struct TopCenterFramed(pub String);

/// The rule above and below the text at the top center.
pub open spec fn top_rule() -> Seq<char> {
    "|=================|"@
}

/// What the framed text at the top center shows.
pub open spec fn top_center_view(t: Seq<char>) -> Seq<CmdView> {
    text_at(40, 0, top_rule()) + text_at(40, 1, "|"@ + t + "|"@) + text_at(40, 2, top_rule())
}

impl TopCenterFramed {
    /// Appends the drawing; see [top_center_view].
    pub fn emit_into(&self, frame: &mut Commands, Ghost(base): Ghost<Seq<Cmd>>, Ghost(shown): Ghost<Seq<CmdView>>)
        requires
            drawn(old(frame)@, base, shown),
        ensures
            drawn(final(frame)@, base, shown + top_center_view(self.0@)),
    {
        emit_str_at(frame, 40, 0, "|=================|", Ghost(base), Ghost(shown));
        let ghost s1 = shown + text_at(40, 0, top_rule());
        let mut middle = String::new();
        push_str(&mut middle, "|");
        push_str(&mut middle, self.0.as_str());
        push_str(&mut middle, "|");
        let ghost m = middle@;
        emit_text_at(frame, 40, 1, middle, Ghost(base), Ghost(s1));
        let ghost s2 = s1 + text_at(40, 1, m);
        emit_str_at(frame, 40, 2, "|=================|", Ghost(base), Ghost(s2));
        assert(m =~= "|"@ + self.0@ + "|"@);
        assert(s2 + text_at(40, 2, top_rule()) =~= shown + top_center_view(self.0@));
    }
}

impl Component for TopCenterFramed {
    open spec fn can_render(&self) -> bool {
        true
    }

    open spec fn draws(&self, cmds: Seq<Cmd>) -> bool {
        cmds_view(cmds) == top_center_view(self.0@)
    }

    fn render(&self, frame: &mut Commands) -> (r: Result<(), String>)
        ensures
            r is Ok,
    {
        let ghost base = frame@;
        proof { lemma_drawn_start(base); }
        self.emit_into(frame, Ghost(base), Ghost(Seq::empty()));
        assert(Seq::<CmdView>::empty() + top_center_view(self.0@) =~= top_center_view(self.0@));
        Ok(())
    }
}

/// The English name of a month numbered from 1.
pub open spec fn month_name(m: u8) -> Seq<char> {
    if m == 1 { "January"@ }
    else if m == 2 { "February"@ }
    else if m == 3 { "March"@ }
    else if m == 4 { "April"@ }
    else if m == 5 { "May"@ }
    else if m == 6 { "June"@ }
    else if m == 7 { "July"@ }
    else if m == 8 { "August"@ }
    else if m == 9 { "September"@ }
    else if m == 10 { "October"@ }
    else if m == 11 { "November"@ }
    else { "December"@ }
}

/// The English name of a month numbered from 1 (December for any number past 11).
pub fn month_name_str(m: u8) -> (r: &'static str)
    ensures
        r@ == month_name(m),
{
    if m == 1 { "January" }
    else if m == 2 { "February" }
    else if m == 3 { "March" }
    else if m == 4 { "April" }
    else if m == 5 { "May" }
    else if m == 6 { "June" }
    else if m == 7 { "July" }
    else if m == 8 { "August" }
    else if m == 9 { "September" }
    else if m == 10 { "October" }
    else if m == 11 { "November" }
    else { "December" }
}

/// The date at the top of the screen: the month's name and the year,
/// together fifteen characters wide (the year right-aligned), framed.
pub struct Date(pub (u16, u8));

/// The text of a date: a space, the month, the year right-aligned to fill
/// fifteen characters, and a space.
pub open spec fn date_text(d: (u16, u8)) -> Seq<char> {
    let month = month_name(d.1);
    " "@ + month + padded(decimal(d.0 as nat), if month.len() < 15 { (15 - month.len()) as nat } else { 0 }) + " "@
}

impl Date {
    /// The text of the date; see [date_text].
    pub fn text(&self) -> (r: String)
        ensures
            r@ == date_text(self.0),
    {
        let month = month_name_str(self.0.1);
        let month_len = crate::text::str_chars(month).len();
        let width: usize = if month_len < 15 { 15 - month_len } else { 0 };
        let mut t = String::new();
        push_str(&mut t, " ");
        push_str(&mut t, month);
        push_padded_decimal(&mut t, self.0.0 as u32, width);
        push_str(&mut t, " ");
        assert(t@ =~= date_text(self.0));
        t
    }
}

impl Component for Date {
    open spec fn can_render(&self) -> bool {
        true
    }

    open spec fn draws(&self, cmds: Seq<Cmd>) -> bool {
        cmds_view(cmds) == top_center_view(date_text(self.0))
    }

    fn render(&self, frame: &mut Commands) -> (r: Result<(), String>)
        ensures
            r is Ok,
    {
        let ghost base = frame@;
        proof { lemma_drawn_start(base); }
        TopCenterFramed(self.text()).emit_into(frame, Ghost(base), Ghost(Seq::empty()));
        assert(Seq::<CmdView>::empty() + top_center_view(date_text(self.0)) =~= top_center_view(date_text(self.0)));
        Ok(())
    }
}


/// Texts, each printed at its column and row, in order.
pub open spec fn placed_view(items: Seq<(u16, u16, Seq<char>)>) -> Seq<CmdView>
    decreases items.len(),
{
    if items.len() == 0 {
        Seq::empty()
    } else {
        placed_view(items.drop_last()) + text_at(items.last().0, items.last().1, items.last().2)
    }
}

/// Placed strings seen by their characters.
pub open spec fn placed_texts(v: Seq<(u16, u16, String)>) -> Seq<(u16, u16, Seq<char>)> {
    v.map_values(|p: (u16, u16, String)| (p.0, p.1, p.2@))
}

/// Appends texts, each printed at its column and row, in order.
pub fn emit_placed(
    frame: &mut Commands,
    items: &Vec<(u16, u16, String)>,
    Ghost(base): Ghost<Seq<Cmd>>,
    Ghost(shown): Ghost<Seq<CmdView>>,
)
    requires
        drawn(old(frame)@, base, shown),
    ensures
        drawn(final(frame)@, base, shown + placed_view(placed_texts(items@))),
{
    let ghost all = placed_texts(items@);
    let mut i: usize = 0;
    assert(all.take(0) =~= Seq::<(u16, u16, Seq<char>)>::empty());
    assert(shown + placed_view(all.take(0)) =~= shown);
    while i < items.len()
        invariant
            i <= items@.len(),
            all == placed_texts(items@),
            drawn(frame@, base, shown + placed_view(all.take(i as int))),
        decreases items@.len() - i,
    {
        let ghost so_far = shown + placed_view(all.take(i as int));
        let x = items[i].0;
        let y = items[i].1;
        let t = items[i].2.clone();
        emit_text_at(frame, x, y, t, Ghost(base), Ghost(so_far));
        proof {
            assert(all.take(i + 1).drop_last() =~= all.take(i as int));
            assert(all.take(i + 1).last() == all[i as int]);
            assert(so_far + text_at(x, y, t@) =~= shown + placed_view(all.take(i + 1)));
        }
        i = i + 1;
    }
    assert(all.take(items@.len() as int) =~= all);
}

/// A label followed by a number right-aligned in `width` characters.
pub open spec fn count_text(label: Seq<char>, n: u32, width: nat) -> Seq<char> {
    label + padded(decimal(n as nat), width)
}

/// See [count_text].
pub(crate) fn count_string(label: &str, n: u32, width: usize) -> (r: String)
    ensures
        r@ == count_text(label@, n, width as nat),
{
    let mut r = String::new();
    push_str(&mut r, label);
    push_padded_decimal(&mut r, n, width);
    r
}

/// A label followed by a number and a closing bracket or other ending.
pub open spec fn number_text(label: Seq<char>, n: nat, ending: Seq<char>) -> Seq<char> {
    label + decimal(n) + ending
}

/// See [number_text].
pub(crate) fn number_string(label: &str, n: u64, ending: &str) -> (r: String)
    ensures
        r@ == number_text(label@, n as nat, ending@),
{
    let mut r = String::new();
    push_str(&mut r, label);
    push_decimal(&mut r, n);
    push_str(&mut r, ending);
    r
}

/// A piece of text repeated along row `y` from the first column over `n`
/// columns, each time moved to its column, and followed by a step right where asked.
pub open spec fn rule_view(y: u16, t: Seq<char>, n: nat, step: bool) -> Seq<CmdView>
    decreases n,
{
    if n == 0 {
        Seq::empty()
    } else {
        rule_view(y, t, (n - 1) as nat, step) + seq![CmdView::MoveTo((n - 1) as u16, y), CmdView::PrintText(t)]
            + if step { seq![CmdView::MoveRight(1)] } else { Seq::empty() }
    }
}

/// A post drawn down column `x` from the second row over `n` rows, each
/// piece followed by a step down.
pub open spec fn post_view(x: u16, n: nat) -> Seq<CmdView>
    decreases n,
{
    if n == 0 {
        Seq::empty()
    } else {
        post_view(x, (n - 1) as nat) + seq![CmdView::MoveTo(x, n as u16), CmdView::PrintText("|"@), CmdView::MoveDown(1)]
    }
}

/// The border of the screen: rules of dashes at the top and the bottom, one
/// under the date and one of equal signs above the location where asked,
/// then posts at the left and right ends.
pub open spec fn border_view(under_date: bool, above_location: bool) -> Seq<CmdView> {
    rule_view(0, "-"@, 99, false) + rule_view(32, "-"@, 99, true) + (if under_date {
        rule_view(2, "-"@, 99, true)
    } else {
        Seq::empty()
    }) + (if above_location {
        rule_view(19, "="@, 99, true)
    } else {
        Seq::empty()
    }) + post_view(0, 31) + post_view(98, 31)
}

/// Appends a rule; see [rule_view].
fn emit_rule(
    frame: &mut Commands,
    y: u16,
    t: &str,
    n: u16,
    step: bool,
    Ghost(base): Ghost<Seq<Cmd>>,
    Ghost(shown): Ghost<Seq<CmdView>>,
)
    requires
        drawn(old(frame)@, base, shown),
    ensures
        drawn(final(frame)@, base, shown + rule_view(y, t@, n as nat, step)),
{
    let mut i: u16 = 0;
    assert(shown + rule_view(y, t@, 0, step) =~= shown);
    while i < n
        invariant
            i <= n,
            drawn(frame@, base, shown + rule_view(y, t@, i as nat, step)),
        decreases n - i,
    {
        let ghost so_far = shown + rule_view(y, t@, i as nat, step);
        emit_str_at(frame, i, y, t, Ghost(base), Ghost(so_far));
        let ghost s1 = so_far + text_at(i, y, t@);
        if step {
            emit(frame, Cmd::MoveRight(1), Ghost(base), Ghost(s1));
            assert(s1.push(CmdView::MoveRight(1)) =~= shown + rule_view(y, t@, (i + 1) as nat, step));
        } else {
            assert(s1 =~= shown + rule_view(y, t@, (i + 1) as nat, step));
        }
        i = i + 1;
    }
}

/// Appends a post; see [post_view].
fn emit_post(frame: &mut Commands, x: u16, n: u16, Ghost(base): Ghost<Seq<Cmd>>, Ghost(shown): Ghost<Seq<CmdView>>)
    requires
        drawn(old(frame)@, base, shown),
        n < u16::MAX,
    ensures
        drawn(final(frame)@, base, shown + post_view(x, n as nat)),
{
    let mut i: u16 = 0;
    assert(shown + post_view(x, 0) =~= shown);
    while i < n
        invariant
            i <= n < u16::MAX,
            drawn(frame@, base, shown + post_view(x, i as nat)),
        decreases n - i,
    {
        let ghost so_far = shown + post_view(x, i as nat);
        emit_str_at(frame, x, i + 1, "|", Ghost(base), Ghost(so_far));
        emit(frame, Cmd::MoveDown(1), Ghost(base), Ghost(so_far + text_at(x, (i + 1) as u16, "|"@)));
        assert((so_far + text_at(x, (i + 1) as u16, "|"@)).push(CmdView::MoveDown(1)) =~= shown + post_view(
            x,
            (i + 1) as nat,
        ));
        i = i + 1;
    }
}

/// Appends a border; see [border_view].
pub(crate) fn emit_border(
    frame: &mut Commands,
    under_date: bool,
    above_location: bool,
    Ghost(base): Ghost<Seq<Cmd>>,
    Ghost(shown): Ghost<Seq<CmdView>>,
)
    requires
        drawn(old(frame)@, base, shown),
    ensures
        drawn(final(frame)@, base, shown + border_view(under_date, above_location)),
{
    emit_rule(frame, 0, "-", 99, false, Ghost(base), Ghost(shown));
    let ghost s1 = shown + rule_view(0, "-"@, 99, false);
    emit_rule(frame, 32, "-", 99, true, Ghost(base), Ghost(s1));
    let ghost s2 = s1 + rule_view(32, "-"@, 99, true);
    let ghost s3 = s2 + if under_date { rule_view(2, "-"@, 99, true) } else { Seq::empty() };
    if under_date {
        emit_rule(frame, 2, "-", 99, true, Ghost(base), Ghost(s2));
    } else {
        assert(s3 =~= s2);
    }
    let ghost s4 = s3 + if above_location { rule_view(19, "="@, 99, true) } else { Seq::empty() };
    if above_location {
        emit_rule(frame, 19, "=", 99, true, Ghost(base), Ghost(s3));
    } else {
        assert(s4 =~= s3);
    }
    emit_post(frame, 0, 31, Ghost(base), Ghost(s4));
    emit_post(frame, 98, 31, Ghost(base), Ghost(s4 + post_view(0, 31)));
    assert(s4 + post_view(0, 31) + post_view(98, 31) =~= shown + border_view(under_date, above_location));
}

/// The border of the screen; `true` asks for the plain border, `false` adds
/// the rules under the date and above the location.
pub struct Frame(pub bool);

impl Frame {
    /// Appends the border; see [border_view].
    pub fn emit_into(&self, frame: &mut Commands, Ghost(base): Ghost<Seq<Cmd>>, Ghost(shown): Ghost<Seq<CmdView>>)
        requires
            drawn(old(frame)@, base, shown),
        ensures
            drawn(final(frame)@, base, shown + border_view(!self.0, !self.0)),
    {
        emit_border(frame, !self.0, !self.0, Ghost(base), Ghost(shown));
    }
}

impl Component for Frame {
    open spec fn can_render(&self) -> bool {
        true
    }

    open spec fn draws(&self, cmds: Seq<Cmd>) -> bool {
        cmds_view(cmds) == border_view(!self.0, !self.0)
    }

    fn render(&self, frame: &mut Commands) -> (r: Result<(), String>)
        ensures
            r is Ok,
    {
        let ghost base = frame@;
        proof { lemma_drawn_start(base); }
        self.emit_into(frame, Ghost(base), Ghost(Seq::empty()));
        assert(Seq::<CmdView>::empty() + border_view(!self.0, !self.0) =~= border_view(!self.0, !self.0));
        Ok(())
    }
}

} // verus!
