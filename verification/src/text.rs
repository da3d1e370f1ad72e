use vstd::prelude::*;

verus! {

/// `n` spaces.
pub open spec fn spaces(n: nat) -> Seq<char> {
    Seq::new(n, |i: int| ' ')
}

/// `line` padded with spaces up to length `len`.
pub open spec fn pad_to(line: Seq<char>, len: int) -> Seq<char> {
    if line.len() < len {
        line + spaces((len - line.len()) as nat)
    } else {
        line
    }
}

/// `text` written over `line` from column `col` on: the line is padded with
/// spaces up to `col`, the characters under the text are replaced, and the line
/// grows where the text runs past its end.
pub open spec fn write_at(line: Seq<char>, col: int, text: Seq<char>) -> Seq<char> {
    let padded = pad_to(line, col);
    if padded.len() <= col + text.len() {
        padded.take(col) + text
    } else {
        padded.take(col) + text + padded.skip(col + text.len())
    }
}

/// The lines joined with newlines between them.
pub open spec fn join_lines(lines: Seq<Seq<char>>) -> Seq<char>
    decreases lines.len(),
{
    if lines.len() == 0 {
        Seq::empty()
    } else if lines.len() == 1 {
        lines[0]
    } else {
        join_lines(lines.drop_last()) + seq!['\n'] + lines.last()
    }
}

/// The character sequences of a vector of character vectors.
pub open spec fn char_lines(v: Seq<Vec<char>>) -> Seq<Seq<char>> {
    v.map_values(|l: Vec<char>| l@)
}

/// Appends a character to a string (std's `String::push`).
#[verifier::external_body]
pub(crate) fn push_char(s: &mut String, c: char)
    ensures
        final(s)@ == old(s)@.push(c),
{
    s.push(c);
}

/// Appends a string slice to a string (std's `String::push_str`).
#[verifier::external_body]
pub(crate) fn push_str(s: &mut String, t: &str)
    ensures
        final(s)@ == old(s)@ + t@,
{
    s.push_str(t);
}

/// The characters of a string slice.
pub fn str_chars(s: &str) -> (r: Vec<char>)
    ensures
        r@ == s@,
{
    broadcast use vstd::string::group_string_axioms;
    let mut r: Vec<char> = Vec::new();
    for c in it: s.chars()
        invariant
            it.seq() == s@,
            r@ == s@.take(it.index()),
    {
        r.push(c);
        assert(s@.take(it.index() + 1) =~= s@.take(it.index()).push(c));
    }
    assert(r@ =~= s@);
    r
}

/// A string holding the given characters.
pub fn string_from_chars(v: &Vec<char>) -> (r: String)
    ensures
        r@ == v@,
{
    let mut r = String::new();
    let mut i: usize = 0;
    while i < v.len()
        invariant
            i <= v@.len(),
            r@ == v@.take(i as int),
        decreases v@.len() - i,
    {
        push_char(&mut r, v[i]);
        assert(v@.take(i + 1) =~= v@.take(i as int).push(v@[i as int]));
        i = i + 1;
    }
    assert(v@.take(v@.len() as int) =~= v@);
    r
}

/// The string holding the single character `c`.
pub fn char_to_string(c: char) -> (r: String)
    ensures
        r@ == seq![c],
{
    let mut r = String::new();
    push_char(&mut r, c);
    assert(r@ =~= seq![c]);
    r
}

/// An owned copy of a string slice.
pub fn str_to_string(s: &str) -> (r: String)
    ensures
        r@ == s@,
{
    s.to_owned()
}

/// Writes `text` over `line` from column `col` on; see [write_at].
pub fn write_text(line: &mut Vec<char>, col: usize, text: &Vec<char>)
    requires
        col + text@.len() <= usize::MAX,
    ensures
        final(line)@ == write_at(old(line)@, col as int, text@),
{
    let ghost l0 = line@;
    while line.len() < col
        invariant
            col + text@.len() <= usize::MAX,
            line@ == l0 + spaces((line@.len() - l0.len()) as nat),
            l0.len() <= line@.len() <= (if l0.len() < col { col as int } else { l0.len() as int }),
        decreases col - line@.len(),
    {
        let ghost before = line@;
        line.push(' ');
        assert(line@ =~= l0 + spaces((line@.len() - l0.len()) as nat));
    }
    let ghost padded = line@;
    assert(padded == pad_to(l0, col as int)) by {
        if l0.len() < col {
            assert(padded.len() == col);
        } else {
            assert(padded =~= l0);
        }
    }
    let mut index: usize = col;
    let mut k: usize = 0;
    while k < text.len()
        invariant
            col + text@.len() <= usize::MAX,
            index == col + k,
            k <= text@.len(),
            padded.len() >= col,
            line@ == write_at(padded, col as int, text@.take(k as int)),
        decreases text@.len() - k,
    {
        let c = text[k];
        let ghost before = line@;
        if line.len() > index {
            line.set(index, c);
        } else {
            line.push(c);
        }
        proof {
            let t0 = text@.take(k as int);
            let t1 = text@.take(k + 1);
            assert(t1 =~= t0.push(c));
            assert(pad_to(padded, col as int) =~= padded);
            assert(line@ =~= write_at(padded, col as int, t1));
        }
        index = index + 1;
        k = k + 1;
    }
    proof {
        assert(text@.take(text@.len() as int) =~= text@);
        assert(pad_to(padded, col as int) =~= padded);
        assert(pad_to(l0, col as int) == padded);
    }
}

/// The lines joined with newlines between them; see [join_lines].
pub fn join_char_lines(lines: &Vec<Vec<char>>) -> (r: Vec<char>)
    ensures
        r@ == join_lines(char_lines(lines@)),
{
    let mut r: Vec<char> = Vec::new();
    let mut i: usize = 0;
    while i < lines.len()
        invariant
            i <= lines@.len(),
            r@ == join_lines(char_lines(lines@).take(i as int)),
        decreases lines@.len() - i,
    {
        let ghost before = r@;
        if i > 0 {
            r.push('\n');
        }
        let mut j: usize = 0;
        let line = &lines[i];
        let ghost r1 = r@;
        while j < line.len()
            invariant
                j <= line@.len(),
                r@ == r1 + line@.take(j as int),
            decreases line@.len() - j,
        {
            r.push(line[j]);
            assert(line@.take(j + 1) =~= line@.take(j as int).push(line@[j as int]));
            j = j + 1;
        }
        proof {
            assert(line@.take(line@.len() as int) =~= line@);
            let dv = char_lines(lines@);
            let t1 = dv.take(i + 1);
            assert(t1.drop_last() =~= dv.take(i as int));
            assert(t1.last() == line@);
            if i == 0 {
                assert(join_lines(dv.take(0)) =~= Seq::<char>::empty());
                assert(r@ =~= line@);
            }
        }
        i = i + 1;
    }
    assert(char_lines(lines@).take(lines@.len() as int) =~= char_lines(lines@));
    r
}


/// The character of a decimal digit.
pub open spec fn digit_char(d: nat) -> char {
    ((d % 10) + 48) as char
}

/// The decimal digits of a number, most significant first, without leading zeros.
pub open spec fn decimal(n: nat) -> Seq<char>
    decreases n,
{
    if n < 10 {
        seq![digit_char(n)]
    } else {
        decimal(n / 10).push(digit_char(n % 10))
    }
}

/// Appends the decimal digits of `n`.
pub fn push_decimal(s: &mut String, n: u64)
    ensures
        final(s)@ == old(s)@ + decimal(n as nat),
    decreases n,
{
    if n >= 10 {
        push_decimal(s, n / 10);
    }
    let d = (n % 10) as u32 + 48;
    let c = char_from_digit_code(d);
    push_char(s, c);
    proof {
        if n >= 10 {
            assert(decimal(n as nat) == decimal((n / 10) as nat).push(digit_char((n % 10) as nat)));
        }
    }
}

/// The character with a digit's code (48 to 57).
fn char_from_digit_code(code: u32) -> (r: char)
    requires
        48 <= code <= 57,
    ensures
        r == code as char,
{
    if code == 48 { '0' }
    else if code == 49 { '1' }
    else if code == 50 { '2' }
    else if code == 51 { '3' }
    else if code == 52 { '4' }
    else if code == 53 { '5' }
    else if code == 54 { '6' }
    else if code == 55 { '7' }
    else if code == 56 { '8' }
    else { '9' }
}

/// The decimal rendering of a number, as a string.
pub fn decimal_string(n: u64) -> (r: String)
    ensures
        r@ == decimal(n as nat),
{
    let mut r = String::new();
    push_decimal(&mut r, n);
    assert(r@ =~= decimal(n as nat));
    r
}

/// The parts with `sep` between each two.
pub open spec fn joined(parts: Seq<Seq<char>>, sep: Seq<char>) -> Seq<char>
    decreases parts.len(),
{
    if parts.len() == 0 {
        Seq::empty()
    } else if parts.len() == 1 {
        parts[0]
    } else {
        joined(parts.drop_last(), sep) + sep + parts.last()
    }
}

/// The parts one after the other.
pub open spec fn concat_all(parts: Seq<Seq<char>>) -> Seq<char>
    decreases parts.len(),
{
    if parts.len() == 0 {
        Seq::empty()
    } else {
        concat_all(parts.drop_last()) + parts.last()
    }
}

/// The character sequences of some strings.
pub open spec fn string_views(v: Seq<String>) -> Seq<Seq<char>> {
    v.map_values(|s: String| s@)
}

/// The strings with `sep` between each two, as `[String]::join` gives them.
pub fn join_strings(parts: &Vec<String>, sep: &str) -> (r: String)
    ensures
        r@ == joined(string_views(parts@), sep@),
{
    let mut r = String::new();
    let mut i: usize = 0;
    while i < parts.len()
        invariant
            i <= parts@.len(),
            r@ == joined(string_views(parts@).take(i as int), sep@),
        decreases parts@.len() - i,
    {
        if i > 0 {
            push_str(&mut r, sep);
        }
        push_str(&mut r, parts[i].as_str());
        proof {
            let v = string_views(parts@);
            assert(v.take(i + 1).drop_last() =~= v.take(i as int));
            assert(v.take(i + 1).last() == parts@[i as int]@);
            if i == 0 {
                assert(v.take(0) =~= Seq::<Seq<char>>::empty());
            }
        }
        i = i + 1;
    }
    assert(string_views(parts@).take(parts@.len() as int) =~= string_views(parts@));
    r
}

} // verus!
