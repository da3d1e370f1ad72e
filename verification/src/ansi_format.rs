use vstd::prelude::*;

use ansi_parser::{AnsiParser, AnsiSequence, Output};
use regex::Regex;

use crate::render_raw::pad_lines;
use crate::text::{char_lines, join_char_lines, join_lines, str_chars, string_from_chars, write_at, write_text};

verus! {

/// A piece of terminal output as the ANSI parser reads it: a block of text,
/// a cursor movement, a change of the text's style, or another escape sequence.
#[derive(Debug, Clone, PartialEq, Eq)]
pub enum AnsiToken {
    TextBlock(String),
    /// Row, then column, both counted from one.
    CursorPos(u32, u32),
    CursorUp(u32),
    CursorDown(u32),
    CursorForward(u32),
    CursorBackward(u32),
    SetGraphicsMode,
    OtherEscape,
}

/// A token seen by what it holds: text by its characters.
pub enum TokenView {
    Text(Seq<char>),
    Pos(u32, u32),
    Up(u32),
    Down(u32),
    Forward(u32),
    Backward(u32),
    Graphics,
    Other,
}

/// What a token holds.
pub open spec fn token_view(t: AnsiToken) -> TokenView {
    match t {
        AnsiToken::TextBlock(s) => TokenView::Text(s@),
        AnsiToken::CursorPos(r, c) => TokenView::Pos(r, c),
        AnsiToken::CursorUp(n) => TokenView::Up(n),
        AnsiToken::CursorDown(n) => TokenView::Down(n),
        AnsiToken::CursorForward(n) => TokenView::Forward(n),
        AnsiToken::CursorBackward(n) => TokenView::Backward(n),
        AnsiToken::SetGraphicsMode => TokenView::Graphics,
        AnsiToken::OtherEscape => TokenView::Other,
    }
}

/// What a sequence of tokens holds.
pub open spec fn token_views(ts: Seq<AnsiToken>) -> Seq<TokenView> {
    ts.map_values(|t: AnsiToken| token_view(t))
}

/// The tokens that `ansi_parser` reads from a text.
pub uninterp spec fn ansi_parse_of(s: Seq<char>) -> Seq<TokenView>;

/// Reads a text into tokens with `ansi_parser`'s `AnsiParser::ansi_parse`.
/// The contract names the result and claims nothing more of it: the parser
/// is a function of its input, and it does not fail.
#[verifier::external_body]
fn ansi_parse_tokens(s: &str) -> (r: Vec<AnsiToken>)
    ensures
        token_views(r@) == ansi_parse_of(s@),
{
    let mut r = Vec::new();
    for o in s.ansi_parse() {
        r.push(match o {
            Output::TextBlock(t) => AnsiToken::TextBlock(t.to_string()),
            Output::Escape(AnsiSequence::CursorPos(row, col)) => AnsiToken::CursorPos(row, col),
            Output::Escape(AnsiSequence::CursorUp(n)) => AnsiToken::CursorUp(n),
            Output::Escape(AnsiSequence::CursorDown(n)) => AnsiToken::CursorDown(n),
            Output::Escape(AnsiSequence::CursorForward(n)) => AnsiToken::CursorForward(n),
            Output::Escape(AnsiSequence::CursorBackward(n)) => AnsiToken::CursorBackward(n),
            Output::Escape(AnsiSequence::SetGraphicsMode(_)) => AnsiToken::SetGraphicsMode,
            Output::Escape(_) => AnsiToken::OtherEscape,
        });
    }
    r
}

/// The regular expression of the sequence that moves the cursor down some
/// lines to the start of a line (escape, `[`, digits, `E`), which the parser
/// passes through inside text blocks.
pub const NEXT_LINE_PATTERN: &'static str = "\\u{1b}\\[\\d+E";

/// Whether regex's `\d`, which is Unicode-aware, matches a character that is
/// not ASCII (a Unicode decimal digit).
pub uninterp spec fn unicode_decimal_digit(c: char) -> bool;

/// Whether regex's `\d` matches a character: among ASCII characters exactly
/// `0` to `9`; other characters are named by [unicode_decimal_digit].
pub open spec fn regex_digit(c: char) -> bool {
    if (c as u32) < 128 {
        '0' <= c <= '9'
    } else {
        unicode_decimal_digit(c)
    }
}

/// Where the run of characters that `digit` accepts, starting at `i`, ends.
pub open spec fn digit_run_end(t: Seq<char>, i: int, digit: spec_fn(char) -> bool) -> int
    decreases t.len() - i,
{
    if 0 <= i < t.len() && digit(t[i]) {
        digit_run_end(t, i + 1, digit)
    } else {
        i
    }
}

/// Where a match of [NEXT_LINE_PATTERN] that starts at `i` ends, if one
/// starts there, with `digit` telling what `\d` matches: escape, `[`, one or
/// more digits, `E`. The digits run as far as they go, since `E` is no digit.
pub open spec fn next_line_match_end(t: Seq<char>, i: int, digit: spec_fn(char) -> bool) -> Option<int> {
    if 0 <= i && i + 1 < t.len() && t[i] == '\u{1b}' && t[i + 1] == '[' {
        let e = digit_run_end(t, i + 2, digit);
        if e > i + 2 && e < t.len() && t[e] == 'E' {
            Some(e + 1)
        } else {
            None
        }
    } else {
        None
    }
}

/// Where the leftmost match of [NEXT_LINE_PATTERN] starting at or after `i` ends.
pub open spec fn first_next_line_end(t: Seq<char>, i: int, digit: spec_fn(char) -> bool) -> Option<int>
    decreases t.len() - i,
{
    if i >= t.len() {
        None
    } else {
        match next_line_match_end(t, i, digit) {
            Some(e) => Some(e),
            None => first_next_line_end(t, i + 1, digit),
        }
    }
}

/// The text after the leftmost match of [NEXT_LINE_PATTERN], if there is one,
/// with `digit` telling what `\d` matches.
pub open spec fn next_line_rest_by(t: Seq<char>, digit: spec_fn(char) -> bool) -> Option<Seq<char>> {
    match first_next_line_end(t, 0, digit) {
        Some(e) => Some(t.skip(e)),
        None => None,
    }
}

/// The text after the leftmost match of [NEXT_LINE_PATTERN], if there is one.
pub open spec fn next_line_rest(t: Seq<char>) -> Option<Seq<char>> {
    next_line_rest_by(t, |c: char| regex_digit(c))
}

/// A run of digits stays within the text.
proof fn lemma_digit_run_end_bounds(t: Seq<char>, i: int, digit: spec_fn(char) -> bool)
    requires
        0 <= i <= t.len(),
    ensures
        i <= digit_run_end(t, i, digit) <= t.len(),
    decreases t.len() - i,
{
    if i < t.len() && digit(t[i]) {
        lemma_digit_run_end_bounds(t, i + 1, digit);
    }
}

/// A match ends within the text, at least four characters after where the
/// search starts.
proof fn lemma_first_next_line_end_bounds(t: Seq<char>, i: int, digit: spec_fn(char) -> bool)
    requires
        0 <= i,
    ensures
        first_next_line_end(t, i, digit) matches Some(e) ==> i + 4 <= e <= t.len(),
    decreases t.len() - i,
{
    if i < t.len() {
        if i + 1 < t.len() {
            lemma_digit_run_end_bounds(t, i + 2, digit);
        }
        if next_line_match_end(t, i, digit) is None {
            lemma_first_next_line_end_bounds(t, i + 1, digit);
        }
    }
}

/// What follows a match is the end of the text, at least four characters
/// shorter than it.
proof fn lemma_next_line_rest_shorter(t: Seq<char>)
    ensures
        next_line_rest(t) matches Some(rest) ==> rest.len() + 4 <= t.len() && rest == t.skip(
            t.len() - rest.len(),
        ),
{
    lemma_first_next_line_end_bounds(t, 0, |c: char| regex_digit(c));
}

/// The text after the leftmost match of [NEXT_LINE_PATTERN] in `text`, found
/// with `regex`'s `Regex::new` (the pattern compiles) and `Regex::find`,
/// which gives the leftmost match; `\d` matches the ASCII digits and, beyond
/// ASCII, the Unicode decimal digits. See [next_line_rest].
#[verifier::external_body]
fn regex_rest_after_match(pattern: &str, text: &str) -> (r: Option<String>)
    requires
        pattern@ == NEXT_LINE_PATTERN@,
    ensures
        match r {
            Some(rest) => next_line_rest_by(
                text@,
                (|c: char|
                    if (c as u32) < 128 {
                        '0' <= c <= '9'
                    } else {
                        unicode_decimal_digit(c)
                    }),
            ) == Some(rest@),
            None => next_line_rest_by(
                text@,
                (|c: char|
                    if (c as u32) < 128 {
                        '0' <= c <= '9'
                    } else {
                        unicode_decimal_digit(c)
                    }),
            ) is None,
        },
{
    Regex::new(pattern).unwrap().find(text).map(|m| text[m.end()..].to_string())
}

/// The value of a sequence of decimal digits.
pub open spec fn digits_value(d: Seq<char>) -> int
    decreases d.len(),
{
    if d.len() == 0 {
        0
    } else {
        digits_value(d.drop_last()) * 10 + (d.last() as int - 48)
    }
}

/// Whether every character is an ASCII decimal digit.
pub open spec fn all_digits(d: Seq<char>) -> bool {
    forall|i: int| 0 <= i < d.len() ==> '0' <= #[trigger] d[i] <= '9'
}

/// How `u32` parses a text: an optional plus sign, then one or more ASCII
/// digits whose value fits in 32 bits; anything else fails.
pub open spec fn parsed_u32(t: Seq<char>) -> Option<u32> {
    let d = if t.len() > 0 && t[0] == '+' { t.skip(1) } else { t };
    if d.len() > 0 && all_digits(d) && digits_value(d) <= u32::MAX {
        Some(digits_value(d) as u32)
    } else {
        None
    }
}

/// std's `str::parse::<u32>`, as its documentation describes it; see [parsed_u32].
#[verifier::external_body]
fn parse_u32(t: &str) -> (r: Option<u32>)
    ensures
        r == parsed_u32(t@),
{
    t.parse::<u32>().ok()
}

/// The text after the first `[`, or nothing where there is none.
pub open spec fn after_first_bracket(t: Seq<char>) -> Seq<char>
    decreases t.len(),
{
    if t.len() == 0 {
        Seq::empty()
    } else if t[0] == '[' {
        t.skip(1)
    } else {
        after_first_bracket(t.skip(1))
    }
}

/// The characters before the first `E`, with every `[` left out.
pub open spec fn number_chars(t: Seq<char>) -> Seq<char>
    decreases t.len(),
{
    if t.len() == 0 {
        Seq::empty()
    } else if t[0] == 'E' {
        Seq::empty()
    } else if t[0] == '[' {
        number_chars(t.skip(1))
    } else {
        seq![t[0]] + number_chars(t.skip(1))
    }
}

/// The text read as the number of lines to move down: what follows the
/// first `[` of the whole text, up to its first `E`, with the other `[` left
/// out (splitting at `[`, joining all but the first part, and keeping what
/// comes before the first `E`).
pub open spec fn bracket_number_text(t: Seq<char>) -> Seq<char> {
    number_chars(after_first_bracket(t))
}

/// See [bracket_number_text].
fn bracket_number_string(text: &str) -> (r: String)
    ensures
        r@ == bracket_number_text(text@),
{
    let chars = str_chars(text);
    let n = chars.len();
    let mut i: usize = 0;
    assert(chars@.skip(0) =~= chars@);
    while i < n && chars[i] != '['
        invariant
            n == chars@.len(),
            i <= n,
            after_first_bracket(chars@) == after_first_bracket(chars@.skip(i as int)),
        decreases n - i,
    {
        assert(chars@.skip(i as int).skip(1) =~= chars@.skip(i + 1));
        i = i + 1;
    }
    let mut r: Vec<char> = Vec::new();
    if i < n {
        assert(chars@.skip(i as int).skip(1) =~= chars@.skip(i + 1));
        let ghost after = chars@.skip(i + 1);
        assert(after_first_bracket(chars@) == after);
        let mut j: usize = i + 1;
        let mut stopped = false;
        while j < n && !stopped
            invariant
                n == chars@.len(),
                i + 1 <= j <= n,
                after == chars@.skip(i + 1),
                !stopped ==> number_chars(after) == r@ + number_chars(chars@.skip(j as int)),
                stopped ==> number_chars(after) == r@,
            decreases n - j, if stopped { 0int } else { 1int },
        {
            let c = chars[j];
            assert(chars@.skip(j as int).skip(1) =~= chars@.skip(j + 1));
            assert(chars@.skip(j as int)[0] == c);
            if c == 'E' {
                stopped = true;
                assert(r@ + Seq::<char>::empty() =~= r@);
            } else {
                if c != '[' {
                    let ghost before = r@;
                    r.push(c);
                    assert(before + (seq![c] + number_chars(chars@.skip(j + 1))) =~= r@ + number_chars(
                        chars@.skip(j + 1),
                    ));
                }
                j = j + 1;
            }
        }
        if !stopped {
            assert(chars@.skip(j as int) =~= Seq::<char>::empty());
            assert(r@ + Seq::<char>::empty() =~= r@);
        }
    } else {
        assert(chars@.skip(i as int) =~= Seq::<char>::empty());
        assert(r@ =~= bracket_number_text(text@));
    }
    string_from_chars(&r)
}

/// A text block read anew: each next-line sequence found in it becomes a move
/// down by the number read from the block (see [bracket_number_text]) and a
/// move far back to the start of the line, with the text before the sequence
/// dropped; what follows the last one stays a text block where it is not
/// empty. Nothing where a number cannot be read.
pub open spec fn split_text_block(text: Seq<char>) -> Option<Seq<TokenView>>
    decreases text.len(),
{
    match next_line_rest(text) {
        None => Some(if text.len() == 0 { Seq::empty() } else { seq![TokenView::Text(text)] }),
        Some(rest) => if rest.len() < text.len() {
            match parsed_u32(bracket_number_text(text)) {
                None => None,
                Some(n) => match split_text_block(rest) {
                    None => None,
                    Some(more) => Some(seq![TokenView::Down(n), TokenView::Backward(999999999)] + more),
                },
            }
        } else {
            None
        },
    }
}

/// The parser's tokens repaired: text blocks read anew (see
/// [split_text_block]), style changes left out, other tokens kept. Nothing
/// where a number cannot be read.
pub open spec fn repaired_tokens(ts: Seq<TokenView>) -> Option<Seq<TokenView>>
    decreases ts.len(),
{
    if ts.len() == 0 {
        Some(Seq::empty())
    } else {
        match repaired_tokens(ts.drop_last()) {
            None => None,
            Some(prefix) => match ts.last() {
                TokenView::Text(t) => match split_text_block(t) {
                    None => None,
                    Some(more) => Some(prefix + more),
                },
                TokenView::Graphics => Some(prefix),
                other => Some(prefix.push(other)),
            },
        }
    }
}

/// Appends the tokens of a text block read anew; see [split_text_block].
fn push_split_block(text: &str, out: &mut Vec<AnsiToken>) -> (ok: bool)
    ensures
        match split_text_block(text@) {
            Some(more) => ok && token_views(final(out)@) == token_views(old(out)@) + more,
            None => !ok,
        },
{
    let mut cur = crate::text::str_to_string(text);
    let ghost start = token_views(out@);
    loop
        invariant
            split_text_block(text@) == match split_text_block(cur@) {
                Some(more) => Some(token_views(out@).skip(start.len() as int) + more),
                None => None::<Seq<TokenView>>,
            },
            start == token_views(old(out)@),
            start.len() <= token_views(out@).len(),
            token_views(out@).take(start.len() as int) == start,
        decreases cur@.len(),
    {
        let ghost pushed = token_views(out@).skip(start.len() as int);
        let found = regex_rest_after_match(NEXT_LINE_PATTERN, cur.as_str());
        proof {
            lemma_next_line_rest_shorter(cur@);
            assert((|c: char| regex_digit(c)) =~= (|c: char|
                if (c as u32) < 128 {
                    '0' <= c <= '9'
                } else {
                    unicode_decimal_digit(c)
                }));
        }
        match found {
            None => {
                let ghost t = cur@;
                let ghost more_cur = if t.len() == 0 { Seq::<TokenView>::empty() } else { seq![TokenView::Text(t)] };
                assert(split_text_block(t) == Some(more_cur));
                assert(token_views(out@) =~= start + pushed);
                if str_chars(cur.as_str()).len() > 0 {
                    out.push(AnsiToken::TextBlock(cur));
                    assert(token_views(out@) =~= start + (pushed + more_cur));
                } else {
                    assert(token_views(out@) =~= start + (pushed + more_cur));
                }
                return true;
            },
            Some(rest) => {
                let number_text = bracket_number_string(cur.as_str());
                match parse_u32(number_text.as_str()) {
                    None => {
                        return false;
                    },
                    Some(n) => {
                        out.push(AnsiToken::CursorDown(n));
                        out.push(AnsiToken::CursorBackward(999999999));
                        proof {
                            assert(token_views(out@) =~= token_views(out@).take(start.len() as int) + token_views(out@).skip(start.len() as int));
                            assert(token_views(out@).take(start.len() as int) =~= start);
                            assert(token_views(out@).skip(start.len() as int) =~= pushed + seq![
                                TokenView::Down(n),
                                TokenView::Backward(999999999),
                            ]);
                            match split_text_block(rest@) {
                                Some(more) => {
                                    assert(pushed + (seq![TokenView::Down(n), TokenView::Backward(999999999)] + more)
                                        =~= pushed + seq![TokenView::Down(n), TokenView::Backward(999999999)] + more);
                                },
                                None => {},
                            }
                        }
                        cur = rest;
                    },
                }
            },
        }
    }
}

/// Reads a text into tokens with the parser and repairs them; see
/// [repaired_tokens] and [repair_tokens]. Nothing where a number cannot be read.
pub fn tokenize_ansi(s: &str) -> (r: Option<Vec<AnsiToken>>)
    ensures
        match r {
            Some(v) => repaired_tokens(ansi_parse_of(s@)) == Some(token_views(v@)),
            None => repaired_tokens(ansi_parse_of(s@)) is None,
        },
{
    let parsed = ansi_parse_tokens(s);
    repair_tokens(&parsed)
}

/// Repairs the tokens the parser read; see [repaired_tokens]. Nothing where
/// a number cannot be read.
pub fn repair_tokens(parsed: &Vec<AnsiToken>) -> (r: Option<Vec<AnsiToken>>)
    ensures
        match r {
            Some(v) => repaired_tokens(token_views(parsed@)) == Some(token_views(v@)),
            None => repaired_tokens(token_views(parsed@)) is None,
        },
{
    let ghost all = token_views(parsed@);
    let mut out: Vec<AnsiToken> = Vec::new();
    let mut i: usize = 0;
    assert(all.take(0) =~= Seq::<TokenView>::empty());
    assert(token_views(out@) =~= Seq::<TokenView>::empty());
    while i < parsed.len()
        invariant
            i <= parsed@.len(),
            token_views(parsed@) == all,
            repaired_tokens(all.take(i as int)) == Some(token_views(out@)),
        decreases parsed@.len() - i,
    {
        proof {
            assert(all.take(i + 1).drop_last() =~= all.take(i as int));
            assert(all.take(i + 1).last() == token_view(parsed@[i as int]));
        }
        let ghost before = token_views(out@);
        match &parsed[i] {
            AnsiToken::TextBlock(text) => {
                if !push_split_block(text.as_str(), &mut out) {
                    proof {
                        assert(token_view(parsed@[i as int]) == TokenView::Text(text@));
                        assert(split_text_block(text@) is None);
                        assert(repaired_tokens(all.take(i + 1)) is None);
                        lemma_repaired_none_extends(all, i + 1);
                        assert(repaired_tokens(all) is None);
                    }
                    return None;
                }
            },
            AnsiToken::CursorPos(row, col) => {
                out.push(AnsiToken::CursorPos(*row, *col));
                assert(token_views(out@) =~= before.push(TokenView::Pos(*row, *col)));
            },
            AnsiToken::CursorUp(n) => {
                out.push(AnsiToken::CursorUp(*n));
                assert(token_views(out@) =~= before.push(TokenView::Up(*n)));
            },
            AnsiToken::CursorDown(n) => {
                out.push(AnsiToken::CursorDown(*n));
                assert(token_views(out@) =~= before.push(TokenView::Down(*n)));
            },
            AnsiToken::CursorForward(n) => {
                out.push(AnsiToken::CursorForward(*n));
                assert(token_views(out@) =~= before.push(TokenView::Forward(*n)));
            },
            AnsiToken::CursorBackward(n) => {
                out.push(AnsiToken::CursorBackward(*n));
                assert(token_views(out@) =~= before.push(TokenView::Backward(*n)));
            },
            AnsiToken::SetGraphicsMode => {},
            AnsiToken::OtherEscape => {
                out.push(AnsiToken::OtherEscape);
                assert(token_views(out@) =~= before.push(TokenView::Other));
            },
        }
        i = i + 1;
    }
    assert(all.take(parsed@.len() as int) =~= all);
    Some(out)
}

/// Once repairing fails on a prefix, it fails on every longer one.
proof fn lemma_repaired_none_extends(ts: Seq<TokenView>, n: int)
    requires
        0 <= n <= ts.len(),
        repaired_tokens(ts.take(n)) is None,
    ensures
        repaired_tokens(ts) is None,
    decreases ts.len() - n,
{
    if n < ts.len() {
        assert(ts.take(n + 1).drop_last() =~= ts.take(n));
        lemma_repaired_none_extends(ts, n + 1);
    } else {
        assert(ts.take(n) =~= ts);
    }
}

/// The text shown while tokens are emulated, and the cursor's row and column
/// (counted from zero).
pub struct AnsiScreen {
    pub lines: Seq<Seq<char>>,
    pub row: int,
    pub col: int,
}

/// Nothing shown yet, the cursor at the origin.
pub open spec fn ansi_start() -> AnsiScreen {
    AnsiScreen { lines: Seq::empty(), row: 0, col: 0 }
}

/// Whether a token can be emulated: the cursor stays within machine words.
pub open spec fn ansi_step_ok(s: AnsiScreen, t: TokenView) -> bool {
    match t {
        TokenView::Down(n) => s.row + n <= usize::MAX,
        TokenView::Text(x) => x.len() == 0 || (s.row + 1 <= usize::MAX && s.col + x.len() <= usize::MAX),
        _ => true,
    }
}

/// The screen after one token: a position moves the cursor there (its row
/// and column count from one); moves up and back stop at the first row and
/// column; a move forward past the largest column goes back to the first; text
/// is written over the cursor's line (padded with lines and spaces) and moves
/// the cursor after it; style changes and other escapes change nothing.
pub open spec fn ansi_step(s: AnsiScreen, t: TokenView) -> AnsiScreen {
    match t {
        TokenView::Pos(r, c) => AnsiScreen {
            row: if r > 0 { r - 1 } else { 0 },
            col: if c > 0 { c - 1 } else { 0 },
            ..s
        },
        TokenView::Up(n) => AnsiScreen { row: if s.row >= n { s.row - n } else { 0 }, ..s },
        TokenView::Down(n) => AnsiScreen { row: s.row + n, ..s },
        TokenView::Forward(n) => AnsiScreen { col: if s.col + n <= usize::MAX { s.col + n } else { 0 }, ..s },
        TokenView::Backward(n) => AnsiScreen { col: if s.col >= n { s.col - n } else { 0 }, ..s },
        TokenView::Text(x) => if x.len() == 0 {
            s
        } else {
            let lines = pad_lines(s.lines, s.row + 1);
            AnsiScreen { lines: lines.update(s.row, write_at(lines[s.row], s.col, x)), row: s.row, col: s.col + x.len() }
        },
        _ => s,
    }
}

/// The screen after all the tokens, in order.
pub open spec fn ansi_run(ts: Seq<TokenView>) -> AnsiScreen
    decreases ts.len(),
{
    if ts.len() == 0 {
        ansi_start()
    } else {
        ansi_step(ansi_run(ts.drop_last()), ts.last())
    }
}

/// Whether every token can be emulated on the screen its predecessors left.
pub open spec fn ansi_ok(ts: Seq<TokenView>) -> bool
    decreases ts.len(),
{
    if ts.len() == 0 {
        true
    } else {
        ansi_ok(ts.drop_last()) && ansi_step_ok(ansi_run(ts.drop_last()), ts.last())
    }
}

/// Every prefix of emulable tokens is emulable.
proof fn lemma_ansi_ok_prefix(ts: Seq<TokenView>, n: int)
    requires
        ansi_ok(ts),
        0 <= n <= ts.len(),
    ensures
        ansi_ok(ts.take(n)),
        n >= 1 ==> ansi_step_ok(ansi_run(ts.take(n - 1)), ts[n - 1]),
    decreases ts.len() - n,
{
    if n == ts.len() {
        assert(ts.take(n) =~= ts);
        if n >= 1 {
            assert(ts.drop_last() =~= ts.take(n - 1));
        }
    } else {
        lemma_ansi_ok_prefix(ts, n + 1);
        assert(ts.take(n + 1).drop_last() =~= ts.take(n));
        if n >= 1 {
            assert(ts.take(n).drop_last() =~= ts.take(n - 1));
            assert(ts.take(n).last() == ts[n - 1]);
        }
    }
}

/// Once a token cannot be emulated, no longer sequence can be.
proof fn lemma_ansi_not_ok_extends(ts: Seq<TokenView>, n: int)
    requires
        0 <= n <= ts.len(),
        !ansi_ok(ts.take(n)),
    ensures
        !ansi_ok(ts),
    decreases ts.len() - n,
{
    if n < ts.len() {
        assert(ts.take(n + 1).drop_last() =~= ts.take(n));
        lemma_ansi_not_ok_extends(ts, n + 1);
    } else {
        assert(ts.take(n) =~= ts);
    }
}

/// The text that tokens leave on a terminal, without styles: the lines of
/// [ansi_run] joined with newlines.
pub open spec fn ansi_text(ts: Seq<TokenView>) -> Seq<char> {
    join_lines(ansi_run(ts).lines)
}

/// Emulates tokens on a terminal and returns the text it would show, without
/// styles; see [ansi_run].
pub fn raw_format_tokens(tokens: &Vec<AnsiToken>) -> (r: String)
    requires
        ansi_ok(token_views(tokens@)),
    ensures
        r@ == ansi_text(token_views(tokens@)),
{
    let ghost ts = token_views(tokens@);
    let mut lines: Vec<Vec<char>> = Vec::new();
    let mut row: usize = 0;
    let mut col: usize = 0;
    let mut i: usize = 0;
    proof {
        assert(ts.take(0) =~= Seq::<TokenView>::empty());
        assert(char_lines(lines@) =~~= Seq::<Seq<char>>::empty());
    }
    while i < tokens.len()
        invariant
            ts == token_views(tokens@),
            ansi_ok(ts),
            i <= ts.len(),
            ({
                let s = ansi_run(ts.take(i as int));
                &&& char_lines(lines@) == s.lines
                &&& row == s.row
                &&& col == s.col
            }),
        decreases ts.len() - i,
    {
        proof {
            lemma_ansi_ok_prefix(ts, i as int + 1);
            assert(ts.take(i + 1).drop_last() =~= ts.take(i as int));
            assert(ts.take(i + 1).last() == ts[i as int]);
        }
        let ghost s0 = ansi_run(ts.take(i as int));
        match &tokens[i] {
            AnsiToken::CursorPos(r, c) => {
                row = if *r > 0 { (*r - 1) as usize } else { 0 };
                col = if *c > 0 { (*c - 1) as usize } else { 0 };
            },
            AnsiToken::CursorUp(n) => {
                row = row.saturating_sub(*n as usize);
            },
            AnsiToken::CursorDown(n) => {
                row = row + *n as usize;
            },
            AnsiToken::CursorBackward(n) => {
                col = col.saturating_sub(*n as usize);
            },
            AnsiToken::CursorForward(n) => {
                col = match col.checked_add(*n as usize) {
                    Some(c) => c,
                    None => 0,
                };
            },
            AnsiToken::TextBlock(text_string) => {
                let text = str_chars(text_string.as_str());
                if text.len() > 0 {
                    while lines.len() < row + 1
                        invariant
                            row + 1 <= usize::MAX,
                            s0.lines.len() <= char_lines(lines@).len() <= (if s0.lines.len() < row + 1 {
                                row + 1
                            } else {
                                s0.lines.len() as int
                            }),
                            char_lines(lines@) == s0.lines + Seq::new(
                                (char_lines(lines@).len() - s0.lines.len()) as nat,
                                |k: int| Seq::<char>::empty(),
                            ),
                        decreases row + 1 - lines@.len(),
                    {
                        let ghost before = char_lines(lines@);
                        let empty: Vec<char> = Vec::new();
                        assert(empty@ =~= Seq::<char>::empty());
                        lines.push(empty);
                        assert(char_lines(lines@) =~~= before.push(Seq::<char>::empty()));
                        assert(char_lines(lines@) =~~= s0.lines + Seq::new(
                            (char_lines(lines@).len() - s0.lines.len()) as nat,
                            |k: int| Seq::<char>::empty(),
                        ));
                    }
                    let ghost padded = char_lines(lines@);
                    assert(padded =~~= pad_lines(s0.lines, row + 1));
                    let mut line = lines[row].clone();
                    assert(line@ == padded[row as int]);
                    write_text(&mut line, col, &text);
                    lines.set(row, line);
                    col = col + text.len();
                    assert(char_lines(lines@) =~~= padded.update(
                        row as int,
                        write_at(padded[row as int], s0.col, text@),
                    ));
                }
            },
            AnsiToken::SetGraphicsMode => {},
            AnsiToken::OtherEscape => {},
        }
        i = i + 1;
    }
    assert(ts.take(ts.len() as int) =~= ts);
    let joined = join_char_lines(&lines);
    string_from_chars(&joined)
}

/// Whether tokens can be emulated; see [ansi_ok].
pub fn tokens_format_ok(tokens: &Vec<AnsiToken>) -> (r: bool)
    ensures
        r == ansi_ok(token_views(tokens@)),
{
    let ghost ts = token_views(tokens@);
    let mut row: usize = 0;
    let mut col: usize = 0;
    let mut i: usize = 0;
    assert(ts.take(0) =~= Seq::<TokenView>::empty());
    while i < tokens.len()
        invariant
            ts == token_views(tokens@),
            i <= ts.len(),
            ansi_ok(ts.take(i as int)),
            row == ansi_run(ts.take(i as int)).row,
            col == ansi_run(ts.take(i as int)).col,
        decreases ts.len() - i,
    {
        proof {
            assert(ts.take(i + 1).drop_last() =~= ts.take(i as int));
            assert(ts.take(i + 1).last() == ts[i as int]);
        }
        match &tokens[i] {
            AnsiToken::CursorPos(r, c) => {
                row = if *r > 0 { (*r - 1) as usize } else { 0 };
                col = if *c > 0 { (*c - 1) as usize } else { 0 };
            },
            AnsiToken::CursorUp(n) => {
                row = row.saturating_sub(*n as usize);
            },
            AnsiToken::CursorDown(n) => {
                match row.checked_add(*n as usize) {
                    Some(r) => {
                        row = r;
                    },
                    None => {
                        proof { lemma_ansi_not_ok_extends(ts, i + 1); }
                        return false;
                    },
                }
            },
            AnsiToken::CursorBackward(n) => {
                col = col.saturating_sub(*n as usize);
            },
            AnsiToken::CursorForward(n) => {
                col = match col.checked_add(*n as usize) {
                    Some(c) => c,
                    None => 0,
                };
            },
            AnsiToken::TextBlock(text_string) => {
                let n = str_chars(text_string.as_str()).len();
                if n > 0 {
                    if row == usize::MAX || col > usize::MAX - n {
                        proof { lemma_ansi_not_ok_extends(ts, i + 1); }
                        return false;
                    }
                    col = col + n;
                }
            },
            AnsiToken::SetGraphicsMode => {},
            AnsiToken::OtherEscape => {},
        }
        i = i + 1;
    }
    assert(ts.take(ts.len() as int) =~= ts);
    true
}

/// Whether a text with escape sequences can be formatted: its tokens can be
/// repaired and then emulated.
pub open spec fn ansi_formattable(s: Seq<char>) -> bool {
    match repaired_tokens(ansi_parse_of(s)) {
        Some(ts) => ansi_ok(ts),
        None => false,
    }
}

/// The text that a text with escape sequences leaves on a terminal, without styles.
pub open spec fn ansi_formatted(s: Seq<char>) -> Seq<char> {
    ansi_text(repaired_tokens(ansi_parse_of(s))->0)
}

/// Takes text holding ANSI escape sequences and returns the text a terminal
/// would show for it, with the cursor's moves taken into account and no styles.
pub fn raw_format_ansi(s: &str) -> (r: String)
    requires
        ansi_formattable(s@),
    ensures
        r@ == ansi_formatted(s@),
{
    match tokenize_ansi(s) {
        Some(tokens) => raw_format_tokens(&tokens),
        None => {
            proof { assert(false); }
            String::new()
        },
    }
}

/// [raw_format_ansi] where the text can be formatted, and nothing otherwise
/// (where a line count cannot be read, or the cursor would run past machine words).
pub fn try_raw_format_ansi(s: &str) -> (r: Option<String>)
    ensures
        match r {
            Some(t) => ansi_formattable(s@) && t@ == ansi_formatted(s@),
            None => !ansi_formattable(s@),
        },
{
    match tokenize_ansi(s) {
        Some(tokens) => {
            if tokens_format_ok(&tokens) {
                Some(raw_format_ansi(s))
            } else {
                None
            }
        },
        None => None,
    }
}

/// Whether tokens are clean: no style changes, and no text block that is
/// empty or still holds a next-line sequence.
pub open spec fn clean_tokens(ts: Seq<TokenView>) -> bool {
    forall|i: int|
        0 <= i < ts.len() ==> match #[trigger] ts[i] {
            TokenView::Text(t) => t.len() > 0 && next_line_rest(t) is None,
            TokenView::Graphics => false,
            _ => true,
        }
}

/// Reading a text block anew leaves clean tokens.
proof fn lemma_split_block_clean(text: Seq<char>)
    requires
        split_text_block(text) is Some,
    ensures
        clean_tokens(split_text_block(text)->0),
    decreases text.len(),
{
    match next_line_rest(text) {
        None => {},
        Some(rest) => {
            lemma_split_block_clean(rest);
            let n = parsed_u32(bracket_number_text(text))->0;
            let more = split_text_block(rest)->0;
            let all = seq![TokenView::Down(n), TokenView::Backward(999999999)] + more;
            assert forall|i: int| 0 <= i < all.len() implies match #[trigger] all[i] {
                TokenView::Text(t) => t.len() > 0 && next_line_rest(t) is None,
                TokenView::Graphics => false,
                _ => true,
            } by {
                if i >= 2 {
                    assert(all[i] == more[i - 2]);
                }
            }
        },
    }
}

/// The repair the parser's tokens get does what it is for: the tokens it
/// leaves hold no style change, and no text block that is empty or that
/// still holds a sequence moving to a next line.
pub proof fn law_repair_leaves_clean_tokens(ts: Seq<TokenView>)
    requires
        repaired_tokens(ts) is Some,
    ensures
        clean_tokens(repaired_tokens(ts)->0),
    decreases ts.len(),
{
    if ts.len() > 0 {
        law_repair_leaves_clean_tokens(ts.drop_last());
        let prefix = repaired_tokens(ts.drop_last())->0;
        let out = repaired_tokens(ts)->0;
        match ts.last() {
            TokenView::Text(t) => {
                lemma_split_block_clean(t);
                let more = split_text_block(t)->0;
                assert forall|i: int| 0 <= i < out.len() implies match #[trigger] out[i] {
                    TokenView::Text(t) => t.len() > 0 && next_line_rest(t) is None,
                    TokenView::Graphics => false,
                    _ => true,
                } by {
                    if i < prefix.len() {
                        assert(out[i] == prefix[i]);
                    } else {
                        assert(out[i] == more[i - prefix.len()]);
                    }
                }
            },
            TokenView::Graphics => {},
            other => {
                assert forall|i: int| 0 <= i < out.len() implies match #[trigger] out[i] {
                    TokenView::Text(t) => t.len() > 0 && next_line_rest(t) is None,
                    TokenView::Graphics => false,
                    _ => true,
                } by {
                    if i < prefix.len() {
                        assert(out[i] == prefix[i]);
                    }
                }
            },
        }
    }
}

} // verus!
