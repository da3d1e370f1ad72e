use vstd::prelude::*;

use crate::html::{escaped, html_entity};
use crate::text::{str_chars, string_from_chars};

verus! {

/// Whether a character is Unicode `White_Space`, the whitespace that std's
/// `str::trim` removes: tab, line feed, vertical tab, form feed, carriage
/// return, space, next line, no-break space, ogham space mark, the spaces
/// U+2000 to U+200A, line and paragraph separators, narrow no-break space,
/// medium mathematical space and ideographic space.
pub open spec fn is_white_space(c: char) -> bool {
    let n = c as u32;
    ||| 0x09 <= n <= 0x0d
    ||| n == 0x20
    ||| n == 0x85
    ||| n == 0xa0
    ||| n == 0x1680
    ||| 0x2000 <= n <= 0x200a
    ||| n == 0x2028
    ||| n == 0x2029
    ||| n == 0x202f
    ||| n == 0x205f
    ||| n == 0x3000
}

/// A string without its leading whitespace.
pub open spec fn trim_front(s: Seq<char>) -> Seq<char>
    decreases s.len(),
{
    if s.len() > 0 && is_white_space(s[0]) {
        trim_front(s.skip(1))
    } else {
        s
    }
}

/// A string without its trailing whitespace.
pub open spec fn trim_back(s: Seq<char>) -> Seq<char>
    decreases s.len(),
{
    if s.len() > 0 && is_white_space(s.last()) {
        trim_back(s.drop_last())
    } else {
        s
    }
}

/// What std's `str::trim` leaves of a string: the string without its leading
/// and trailing whitespace (see [is_white_space]).
pub open spec fn trimmed(s: Seq<char>) -> Seq<char> {
    trim_back(trim_front(s))
}

/// Whether every character of a string is ASCII.
pub open spec fn ascii_only(s: Seq<char>) -> bool {
    forall|i: int| 0 <= i < s.len() ==> (#[trigger] s[i] as u32) < 128
}

/// The lowercase of an ASCII character: `A` to `Z` become `a` to `z`, the rest stay.
pub open spec fn ascii_lower_char(c: char) -> char {
    if 'A' <= c <= 'Z' {
        ((c as u32) + 32) as char
    } else {
        c
    }
}

/// The lowercase of an ASCII string, character by character.
pub open spec fn ascii_lowercase(s: Seq<char>) -> Seq<char> {
    s.map_values(|c: char| ascii_lower_char(c))
}

/// What std's `str::to_lowercase` makes of a string that is not all ASCII
/// (the Unicode lowercase mapping).
pub uninterp spec fn unicode_lowercased(s: Seq<char>) -> Seq<char>;

/// What std's `str::to_lowercase` makes of a string: for ASCII text the
/// Unicode lowercase mapping lowers `A` to `Z` and keeps every other
/// character; other text is named by [unicode_lowercased].
pub open spec fn lowercased(s: Seq<char>) -> Seq<char> {
    if ascii_only(s) {
        ascii_lowercase(s)
    } else {
        unicode_lowercased(s)
    }
}

/// What std's `char::is_alphanumeric` says of a character that is not ASCII
/// (Unicode Alphabetic or Numeric).
pub uninterp spec fn unicode_alphanumeric(c: char) -> bool;

/// What std's `char::is_alphanumeric` says of a character: among ASCII
/// characters exactly the letters and the digits are alphabetic or numeric;
/// other characters are named by [unicode_alphanumeric].
pub open spec fn alphanumeric(c: char) -> bool {
    if (c as u32) < 128 {
        ||| 'a' <= c <= 'z'
        ||| 'A' <= c <= 'Z'
        ||| '0' <= c <= '9'
    } else {
        unicode_alphanumeric(c)
    }
}

/// Calls std's `str::trim`, which removes leading and trailing Unicode
/// whitespace; see [trimmed].
#[verifier::external_body]
fn trim_str(s: &str) -> (r: &str)
    ensures
        r@ == trimmed(s@),
{
    s.trim()
}

/// Calls std's `str::to_lowercase`: the Unicode lowercase mapping, which on
/// ASCII text lowers `A` to `Z` only; other text is named, nothing more is stated.
#[verifier::external_body]
fn lowercase_str(s: &str) -> (r: String)
    ensures
        r@ == (if ascii_only(s@) {
            ascii_lowercase(s@)
        } else {
            unicode_lowercased(s@)
        }),
{
    s.to_lowercase()
}

/// Calls std's `char::is_alphanumeric` (Unicode Alphabetic or Numeric): among
/// ASCII characters the letters and digits; other characters are named,
/// nothing more is stated.
#[verifier::external_body]
fn char_is_alphanumeric(c: char) -> (r: bool)
    ensures
        r == (if (c as u32) < 128 {
            ||| 'a' <= c <= 'z'
            ||| 'A' <= c <= 'Z'
            ||| '0' <= c <= '9'
        } else {
            unicode_alphanumeric(c)
        }),
{
    c.is_alphanumeric()
}

/// Whether a normalized tag body is a line break: `br`, `br/`, `br /`, or
/// anything starting with `br ` or `br/`.
pub open spec fn is_br_name(n: Seq<char>) -> bool {
    ||| n == seq!['b', 'r']
    ||| (n.len() >= 3 && n.take(3) == seq!['b', 'r', ' '])
    ||| (n.len() >= 3 && n.take(3) == seq!['b', 'r', '/'])
}

/// Whether a tag body (what stands between `<` and `>`) is a line break,
/// after trimming and lowercasing.
pub open spec fn is_br_tag(tag: Seq<char>) -> bool {
    is_br_name(lowercased(trimmed(tag)))
}

/// Whether `c` may stand in an entity name.
pub open spec fn is_entity_char(c: char) -> bool {
    alphanumeric(c) || c == '#'
}

/// Where the `;` closing an entity stands in `body` (the text after `&`),
/// scanning from `j`: the entity name is at most nine characters long, each an
/// entity character.
pub open spec fn entity_end(body: Seq<char>, j: int) -> Option<int>
    decreases 10 - j,
{
    if j < 0 || j >= 10 || j >= body.len() {
        None
    } else if body[j] == ';' {
        Some(j)
    } else if is_entity_char(body[j]) {
        entity_end(body, j + 1)
    } else {
        None
    }
}

/// Where a scan for the end of an entity can stop: on a `;` inside the body,
/// within ten characters, after entity characters only.
pub proof fn lemma_entity_end_bounds(body: Seq<char>, j: int)
    requires
        0 <= j,
    ensures
        entity_end(body, j) matches Some(k) ==> {
            &&& j <= k < body.len()
            &&& k < 10
            &&& body[k] == ';'
            &&& forall|m: int| j <= m < k ==> is_entity_char(#[trigger] body[m])
        },
    decreases 10 - j,
{
    if j >= 10 || j >= body.len() {
    } else if body[j] == ';' {
    } else if is_entity_char(body[j]) {
        lemma_entity_end_bounds(body, j + 1);
    }
}

/// The text an entity name stands for; unknown names stay as they were written.
pub open spec fn decode_entity(name: Seq<char>) -> Seq<char> {
    if name == seq!['n', 'b', 's', 'p'] {
        seq![' ']
    } else if name == seq!['l', 't'] {
        seq!['<']
    } else if name == seq!['g', 't'] {
        seq!['>']
    } else if name == seq!['a', 'm', 'p'] {
        seq!['&']
    } else if name == seq!['q', 'u', 'o', 't'] {
        seq!['"']
    } else if name == seq!['a', 'p', 'o', 's'] || name == seq!['#', '3', '9'] {
        seq!['\'']
    } else {
        seq!['&'] + name + seq![';']
    }
}

/// Whether `k` is the position of the first `>` in `s`.
pub open spec fn first_gt(s: Seq<char>, k: int) -> bool {
    &&& 0 <= k < s.len()
    &&& s[k] == '>'
    &&& forall|m: int| 0 <= m < k ==> s[m] != '>'
}

/// The raw text of an HTML string: tags are dropped, except that line-break
/// tags become newlines; known entities are decoded; a `<` without a closing
/// `>` is kept with the rest of the text, and so is an `&` that starts no entity.
pub open spec fn html_text(s: Seq<char>) -> Seq<char>
    decreases s.len(),
{
    if s.len() == 0 {
        Seq::empty()
    } else if s[0] == '<' {
        let body = s.skip(1);
        if exists|k: int| first_gt(body, k) {
            let k = choose|k: int| first_gt(body, k);
            (if is_br_tag(body.take(k)) { seq!['\n'] } else { Seq::empty() }) + html_text(
                body.skip(k + 1),
            )
        } else {
            seq!['<'] + body
        }
    } else if s[0] == '&' {
        let body = s.skip(1);
        match entity_end(body, 0) {
            Some(k) => {
                proof {
                    lemma_entity_end_bounds(body, 0);
                }
                decode_entity(body.take(k)) + html_text(body.skip(k + 1))
            },
            None => seq!['&'] + html_text(body),
        }
    } else {
        seq![s[0]] + html_text(s.skip(1))
    }
}

/// The text of a tag (`<`, a body without `>`, `>`) followed by more HTML.
proof fn lemma_html_text_tag(tag: Seq<char>, rest: Seq<char>)
    requires
        forall|m: int| 0 <= m < tag.len() ==> tag[m] != '>',
    ensures
        html_text(seq!['<'] + tag + seq!['>'] + rest) == (if is_br_tag(tag) {
            seq!['\n']
        } else {
            Seq::empty()
        }) + html_text(rest),
{
    let s = seq!['<'] + tag + seq!['>'] + rest;
    let body = s.skip(1);
    assert(body =~= tag + seq!['>'] + rest);
    let k = tag.len() as int;
    assert(first_gt(body, k));
    assert forall|k2: int| first_gt(body, k2) implies k2 == k by {
        if k2 < k {
            assert(body[k2] == tag[k2]);
        } else if k2 > k {
            assert(body[k] == '>');
        }
    }
    assert(body.take(k) =~= tag);
    assert(body.skip(k + 1) =~= rest);
}

/// An entity name of entity characters closed by `;` ends at the `;`.
proof fn lemma_entity_end_name(name: Seq<char>, rest: Seq<char>, j: int)
    requires
        0 <= j <= name.len() < 10,
        forall|m: int| 0 <= m < name.len() ==> is_entity_char(#[trigger] name[m]),
    ensures
        entity_end(name + seq![';'] + rest, j) == Some(name.len() as int),
    decreases name.len() - j,
{
    let body = name + seq![';'] + rest;
    if j < name.len() {
        assert(body[j] == name[j]);
        assert(is_entity_char(name[j]));
        lemma_entity_end_name(name, rest, j + 1);
    } else {
        assert(body[j] == ';');
    }
}

/// The text of an entity (`&`, a short name of entity characters, `;`)
/// followed by more HTML.
proof fn lemma_html_text_entity(name: Seq<char>, rest: Seq<char>)
    requires
        name.len() < 10,
        forall|m: int| 0 <= m < name.len() ==> is_entity_char(#[trigger] name[m]),
    ensures
        html_text(seq!['&'] + name + seq![';'] + rest) == decode_entity(name) + html_text(rest),
{
    let s = seq!['&'] + name + seq![';'] + rest;
    let body = s.skip(1);
    assert(body =~= name + seq![';'] + rest);
    lemma_entity_end_name(name, rest, 0);
    assert(body.take(name.len() as int) =~= name);
    assert(body.skip(name.len() as int + 1) =~= rest);
}

/// The text of a character that starts neither a tag nor an entity.
proof fn lemma_html_text_plain(c: char, rest: Seq<char>)
    requires
        c != '<',
        c != '&',
    ensures
        html_text(seq![c] + rest) == seq![c] + html_text(rest),
{
    let s = seq![c] + rest;
    assert(s[0] == c);
    assert(s.skip(1) =~= rest);
}

/// A tag body of ASCII characters, starting and ending with no whitespace,
/// normalizes to its lowercase.
proof fn lemma_normalized_ascii(tag: Seq<char>)
    requires
        tag.len() > 0,
        ascii_only(tag),
        !is_white_space(tag[0]),
        !is_white_space(tag.last()),
    ensures
        lowercased(trimmed(tag)) == ascii_lowercase(tag),
        ascii_lowercase(tag).len() == tag.len(),
        forall|i: int| 0 <= i < tag.len() ==> #[trigger] ascii_lowercase(tag)[i] == ascii_lower_char(tag[i]),
{
    assert(trim_front(tag) == tag);
    assert(trim_back(tag) == tag);
}

/// The closing tag of a character's span reads as nothing.
proof fn lemma_html_text_span_close(rest: Seq<char>)
    ensures
        html_text("</span>"@ + rest) == html_text(rest),
{
    reveal_strlit("</span>");
    let tag = seq!['/', 's', 'p', 'a', 'n'];
    assert("</span>"@ + rest =~= seq!['<'] + tag + seq!['>'] + rest);
    lemma_normalized_ascii(tag);
    let n = ascii_lowercase(tag);
    assert(n[0] == '/');
    assert(n.take(3)[0] == '/');
    assert(!is_br_tag(tag));
    lemma_html_text_tag(tag, rest);
}

/// The opening tag of a character's span reads as nothing.
proof fn lemma_html_text_span_open(rest: Seq<char>)
    ensures
        html_text("<span class=\"char\">"@ + rest) == html_text(rest),
{
    reveal_strlit("<span class=\"char\">");
    let tag = seq!['s', 'p', 'a', 'n', ' ', 'c', 'l', 'a', 's', 's', '=', '"', 'c', 'h', 'a', 'r', '"'];
    assert("<span class=\"char\">"@ + rest =~= seq!['<'] + tag + seq!['>'] + rest);
    lemma_normalized_ascii(tag);
    let n = ascii_lowercase(tag);
    assert(n[0] == 's');
    assert(n.take(3)[0] == 's');
    assert(!is_br_tag(tag));
    lemma_html_text_tag(tag, rest);
}

/// How a character is escaped, read back, gives the character.
proof fn lemma_html_text_entity_of(c: char, rest: Seq<char>)
    ensures
        html_text(html_entity(c) + rest) == seq![c] + html_text(rest),
{
    if c == '<' {
        reveal_strlit("&lt;");
        assert(html_entity(c) + rest =~= seq!['&'] + seq!['l', 't'] + seq![';'] + rest);
        lemma_html_text_entity(seq!['l', 't'], rest);
    } else if c == '>' {
        reveal_strlit("&gt;");
        assert(html_entity(c) + rest =~= seq!['&'] + seq!['g', 't'] + seq![';'] + rest);
        lemma_html_text_entity(seq!['g', 't'], rest);
    } else if c == '&' {
        reveal_strlit("&amp;");
        assert(html_entity(c) + rest =~= seq!['&'] + seq!['a', 'm', 'p'] + seq![';'] + rest);
        lemma_html_text_entity(seq!['a', 'm', 'p'], rest);
    } else if c == '"' {
        reveal_strlit("&quot;");
        assert(html_entity(c) + rest =~= seq!['&'] + seq!['q', 'u', 'o', 't'] + seq![';'] + rest);
        lemma_html_text_entity(seq!['q', 'u', 'o', 't'], rest);
    } else if c == '\'' {
        reveal_strlit("&#39;");
        assert(html_entity(c) + rest =~= seq!['&'] + seq!['#', '3', '9'] + seq![';'] + rest);
        lemma_html_text_entity(seq!['#', '3', '9'], rest);
    } else if c == ' ' {
        reveal_strlit("&nbsp;");
        assert(html_entity(c) + rest =~= seq!['&'] + seq!['n', 'b', 's', 'p'] + seq![';'] + rest);
        lemma_html_text_entity(seq!['n', 'b', 's', 'p'], rest);
    } else if c == '\n' {
        reveal_strlit("<br />");
        let tag = seq!['b', 'r', ' ', '/'];
        assert(html_entity(c) + rest =~= seq!['<'] + tag + seq!['>'] + rest);
        lemma_normalized_ascii(tag);
        let n = ascii_lowercase(tag);
        assert(n.take(3) =~= seq!['b', 'r', ' ']);
        assert(is_br_tag(tag));
        lemma_html_text_tag(tag, rest);
    } else {
        assert(html_entity(c) == seq![c]);
        lemma_html_text_plain(c, rest);
    }
}

/// Escaped text is its first character's span followed by the rest escaped.
proof fn lemma_escaped_front(t: Seq<char>)
    requires
        t.len() > 0,
    ensures
        escaped(t) == "<span class=\"char\">"@ + html_entity(t[0]) + "</span>"@ + escaped(t.skip(1)),
    decreases t.len(),
{
    if t.len() == 1 {
        assert(t.drop_last() =~= Seq::<char>::empty());
        assert(t.skip(1) =~= Seq::<char>::empty());
        assert(escaped(t) =~= "<span class=\"char\">"@ + html_entity(t[0]) + "</span>"@ + escaped(t.skip(1)));
    } else {
        let d = t.drop_last();
        lemma_escaped_front(d);
        assert(t.skip(1).drop_last() =~= d.skip(1));
        assert(t.skip(1).last() == t.last());
        assert(d[0] == t[0]);
        assert(escaped(t) =~= "<span class=\"char\">"@ + html_entity(t[0]) + "</span>"@ + escaped(t.skip(1)));
    }
}

/// Escaping text for HTML and reading the HTML back as raw text gives the
/// text again, whatever it holds.
pub proof fn law_escaped_text_reads_back(t: Seq<char>)
    ensures
        html_text(escaped(t)) == t,
    decreases t.len(),
{
    if t.len() > 0 {
        let rest = escaped(t.skip(1));
        lemma_escaped_front(t);
        let open = "<span class=\"char\">"@;
        let close = "</span>"@;
        assert(escaped(t) =~= open + (html_entity(t[0]) + (close + rest)));
        lemma_html_text_span_open(html_entity(t[0]) + (close + rest));
        lemma_html_text_entity_of(t[0], close + rest);
        lemma_html_text_span_close(rest);
        law_escaped_text_reads_back(t.skip(1));
        assert(seq![t[0]] + t.skip(1) =~= t);
    }
}

/// Whether the normalized tag body is a line break; see [is_br_name].
fn is_br_chars(n: &Vec<char>) -> (r: bool)
    ensures
        r == is_br_name(n@),
{
    let len = n.len();
    let two = len == 2 && n[0] == 'b' && n[1] == 'r';
    let three = len >= 3 && n[0] == 'b' && n[1] == 'r' && (n[2] == ' ' || n[2] == '/');
    proof {
        if len >= 3 {
            assert(n@.take(3) =~= seq![n@[0], n@[1], n@[2]]);
        }
        if len == 2 {
            assert(n@ =~= seq![n@[0], n@[1]]);
        }
        if n@ == seq!['b', 'r'] {
            assert(n@[0] == 'b' && n@[1] == 'r');
        }
        if n@.len() >= 3 && n@.take(3) == seq!['b', 'r', ' '] {
            assert(n@.take(3)[0] == 'b' && n@.take(3)[1] == 'r' && n@.take(3)[2] == ' ');
        }
        if n@.len() >= 3 && n@.take(3) == seq!['b', 'r', '/'] {
            assert(n@.take(3)[0] == 'b' && n@.take(3)[1] == 'r' && n@.take(3)[2] == '/');
        }
    }
    two || three
}

/// Whether `v` holds exactly `lit`.
fn chars_are(v: &Vec<char>, lit: &[char]) -> (r: bool)
    ensures
        r == (v@ == lit@),
{
    if v.len() != lit.len() {
        return false;
    }
    let mut i: usize = 0;
    while i < v.len()
        invariant
            v@.len() == lit@.len(),
            i <= v@.len(),
            forall|m: int| 0 <= m < i ==> v@[m] == lit@[m],
        decreases v@.len() - i,
    {
        if v[i] != lit[i] {
            return false;
        }
        i = i + 1;
    }
    assert(v@ =~= lit@);
    true
}

/// Appends the text an entity name stands for; see [decode_entity].
fn push_decoded(out: &mut Vec<char>, name: &Vec<char>)
    ensures
        final(out)@ == old(out)@ + decode_entity(name@),
{
    let ghost o = out@;
    if chars_are(name, &['n', 'b', 's', 'p']) {
        out.push(' ');
    } else if chars_are(name, &['l', 't']) {
        out.push('<');
    } else if chars_are(name, &['g', 't']) {
        out.push('>');
    } else if chars_are(name, &['a', 'm', 'p']) {
        out.push('&');
    } else if chars_are(name, &['q', 'u', 'o', 't']) {
        out.push('"');
    } else if chars_are(name, &['a', 'p', 'o', 's']) || chars_are(name, &['#', '3', '9']) {
        out.push('\'');
    } else {
        out.push('&');
        let mut i: usize = 0;
        while i < name.len()
            invariant
                i <= name@.len(),
                out@ == o + seq!['&'] + name@.take(i as int),
            decreases name@.len() - i,
        {
            out.push(name[i]);
            assert(name@.take(i + 1) =~= name@.take(i as int).push(name@[i as int]));
            i = i + 1;
        }
        out.push(';');
        assert(name@.take(name@.len() as int) =~= name@);
    }
    assert(out@ =~= o + decode_entity(name@));
}

/// Converts an HTML string into its raw text: `<br>`-like tags become
/// newlines, other tags are dropped (their content stays), and the entities
/// `&nbsp;`, `&lt;`, `&gt;`, `&amp;`, `&quot;`, `&apos;` and `&#39;` are decoded.
pub fn parse_html_to_raw_text(html: &str) -> (r: String)
    ensures
        r@ == html_text(html@),
{
    let cs = str_chars(html);
    let ghost s = cs@;
    let mut out: Vec<char> = Vec::new();
    let mut i: usize = 0;
    assert(s.skip(0) =~= s);
    assert(out@ + html_text(s.skip(0)) =~= html_text(s));
    while i < cs.len()
        invariant
            cs@ == s,
            i <= s.len(),
            out@ + html_text(s.skip(i as int)) == html_text(s),
        decreases s.len() - i,
    {
        let ghost rest = s.skip(i as int);
        let ghost o = out@;
        let ch = cs[i];
        assert(rest[0] == ch);
        if ch == '<' {
            let ghost body = rest.skip(1);
            let mut tag: Vec<char> = Vec::new();
            let mut j: usize = i + 1;
            let mut found_closing = false;
            while j < cs.len()
                invariant_except_break
                    !found_closing,
                invariant
                    cs@ == s,
                    i < j <= s.len(),
                    body == s.skip(i + 1),
                    tag@ == s.subrange(i + 1, j as int),
                    forall|m: int| i + 1 <= m < j ==> s[m] != '>',
                ensures
                    found_closing ==> (j < s.len() && s[j as int] == '>'),
                    !found_closing ==> j == s.len(),
                decreases s.len() - j,
            {
                if cs[j] == '>' {
                    found_closing = true;
                    break;
                }
                tag.push(cs[j]);
                assert(s.subrange(i + 1, j + 1) =~= s.subrange(i + 1, j as int).push(s[j as int]));
                j = j + 1;
            }
            if !found_closing {
                out.push('<');
                let mut m: usize = 0;
                while m < tag.len()
                    invariant
                        m <= tag@.len(),
                        out@ == o + seq!['<'] + tag@.take(m as int),
                    decreases tag@.len() - m,
                {
                    out.push(tag[m]);
                    assert(tag@.take(m + 1) =~= tag@.take(m as int).push(tag@[m as int]));
                    m = m + 1;
                }
                proof {
                    assert(tag@.take(tag@.len() as int) =~= tag@);
                    assert(tag@ =~= body);
                    assert(!exists|k: int| first_gt(body, k)) by {
                        if exists|k: int| first_gt(body, k) {
                            let k = choose|k: int| first_gt(body, k);
                            assert(s[i + 1 + k] == '>');
                        }
                    }
                    assert(s.skip(s.len() as int) =~= Seq::<char>::empty());
                    assert(out@ + html_text(s.skip(s.len() as int)) =~= out@);
                }
                i = cs.len();
            } else {
                let tag_string = string_from_chars(&tag);
                let trimmed_tag = trim_str(tag_string.as_str());
                let lowered = lowercase_str(trimmed_tag);
                let normalized = str_chars(lowered.as_str());
                if is_br_chars(&normalized) {
                    out.push('\n');
                }
                proof {
                    let k = j - i - 1;
                    assert(first_gt(body, k));
                    assert forall|k2: int| first_gt(body, k2) implies k2 == k by {
                        if k2 < k {
                            assert(s[i + 1 + k2] != '>');
                        } else if k2 > k {
                            assert(body[k] != '>');
                        }
                    }
                    assert(body.take(k) =~= tag@);
                    assert(body.skip(k + 1) =~= s.skip(j + 1));
                }
                i = j + 1;
            }
        } else if ch == '&' {
            let ghost body = rest.skip(1);
            let mut entity: Vec<char> = Vec::new();
            let mut found_semicolon = false;
            let mut j: usize = 0;
            while j < 10
                invariant_except_break
                    !found_semicolon,
                    entity_end(body, j as int) == entity_end(body, 0),
                invariant
                    cs@ == s,
                    i < s.len(),
                    body == s.skip(i + 1),
                    j <= 10,
                    entity@ == body.take(j as int),
                    j as int <= body.len(),
                ensures
                    found_semicolon ==> (entity_end(body, 0) == Some(j as int) && entity@ == body.take(j as int)),
                    !found_semicolon ==> entity_end(body, 0) is None,
                decreases 10 - j,
            {
                if j >= cs.len() - i - 1 {
                    break;
                }
                let c = cs[i + 1 + j];
                assert(body[j as int] == c);
                if c == ';' {
                    found_semicolon = true;
                    break;
                } else if char_is_alphanumeric(c) || c == '#' {
                    entity.push(c);
                    assert(body.take(j + 1) =~= body.take(j as int).push(c));
                } else {
                    break;
                }
                j = j + 1;
            }
            proof {
                lemma_entity_end_bounds(body, 0);
            }
            if found_semicolon {
                push_decoded(&mut out, &entity);
                proof {
                    assert(body.skip(j + 1) =~= s.skip(i + 1 + j + 1));
                }
                i = i + 1 + j + 1;
            } else {
                out.push('&');
                proof {
                    assert(body =~= s.skip(i + 1));
                }
                i = i + 1;
            }
        } else {
            out.push(ch);
            proof {
                assert(rest.skip(1) =~= s.skip(i + 1));
            }
            i = i + 1;
        }
        proof {
            assert(out@ + html_text(s.skip(i as int)) =~= html_text(s));
        }
    }
    proof {
        assert(s.skip(i as int) =~= Seq::<char>::empty());
        assert(s.skip(0) =~= s);
    }
    string_from_chars(&out)
}

} // verus!
