use vstd::prelude::*;

use crate::text::{char_to_string, str_chars};

verus! {

/// Whether `needle` stands in `hay` from position `i` on.
pub open spec fn occurs_at(hay: Seq<char>, needle: Seq<char>, i: int) -> bool {
    0 <= i && i + needle.len() <= hay.len() && hay.subrange(i, i + needle.len()) == needle
}

/// Whether `needle` stands somewhere in `hay` as a run of characters.
pub open spec fn contains_text(hay: Seq<char>, needle: Seq<char>) -> bool {
    exists|i: int| #[trigger] occurs_at(hay, needle, i)
}

/// Whether `needle` stands in `hay` from position `i` on.
fn occurs_at_exec(hay: &Vec<char>, needle: &Vec<char>, i: usize) -> (r: bool)
    requires
        i + needle@.len() <= hay@.len(),
    ensures
        r == occurs_at(hay@, needle@, i as int),
{
    let n = needle.len();
    let m = hay.len();
    let mut j: usize = 0;
    while j < n
        invariant
            n == needle@.len(),
            m == hay@.len(),
            i + n <= m,
            j <= n,
            forall|k: int| 0 <= k < j ==> hay@[i + k] == #[trigger] needle@[k],
        decreases n - j,
    {
        if hay[i + j] != needle[j] {
            assert(hay@.subrange(i as int, i + n)[j as int] != needle@[j as int]);
            return false;
        }
        j = j + 1;
    }
    assert(hay@.subrange(i as int, i + n) =~= needle@);
    true
}

/// Whether `needle` stands somewhere in `hay`.
fn text_contains(hay: &Vec<char>, needle: &Vec<char>) -> (r: bool)
    ensures
        r == contains_text(hay@, needle@),
{
    let n = needle.len();
    if n > hay.len() {
        return false;
    }
    let last = hay.len() - n;
    let mut i: usize = 0;
    while i < last
        invariant
            n == needle@.len(),
            last + n == hay@.len(),
            i <= last,
            forall|k: int| 0 <= k < i ==> !#[trigger] occurs_at(hay@, needle@, k),
        decreases last - i,
    {
        if occurs_at_exec(hay, needle, i) {
            return true;
        }
        i = i + 1;
    }
    if occurs_at_exec(hay, needle, last) {
        return true;
    }
    assert forall|k: int| !#[trigger] occurs_at(hay@, needle@, k) by {
        if 0 <= k && k + n <= hay@.len() {
            assert(k <= last);
        }
    }
    false
}

/// Whether a browser's user agent names a phone or a tablet: it mentions
/// `Mobile`, `Android`, `iPhone`, `iPad` or `iPod`.
pub open spec fn mobile_user_agent(user_agent: Seq<char>) -> bool {
    ||| contains_text(user_agent, "Mobile"@)
    ||| contains_text(user_agent, "Android"@)
    ||| contains_text(user_agent, "iPhone"@)
    ||| contains_text(user_agent, "iPad"@)
    ||| contains_text(user_agent, "iPod"@)
}

/// Whether a browser's user agent names a phone or a tablet; see [mobile_user_agent].
pub fn is_mobile_user_agent(user_agent: &str) -> (r: bool)
    ensures
        r == mobile_user_agent(user_agent@),
{
    let ua = str_chars(user_agent);
    text_contains(&ua, &str_chars("Mobile")) || text_contains(&ua, &str_chars("Android"))
        || text_contains(&ua, &str_chars("iPhone")) || text_contains(&ua, &str_chars("iPad"))
        || text_contains(&ua, &str_chars("iPod"))
}

/// The name a browser gives a key it cannot name.
pub open spec fn unidentified_key() -> Seq<char> {
    "Unidentified"@
}

/// The milliseconds within which a change of the text field after a key
/// press is taken for that same key.
pub const REPEAT_WINDOW_MS: u64 = 50;

/// Whether a change of the text field at `now_ms` follows a key press
/// recorded at `last_keydown_ms` by less than the repeat window (a clock that
/// went back counts as within it).
pub open spec fn repeats_keydown(last_keydown_ms: Option<u64>, now_ms: u64) -> bool {
    match last_keydown_ms {
        Some(t) => now_ms - t < REPEAT_WINDOW_MS,
        None => false,
    }
}

/// What a web page reports to the game's key handling.
pub enum PageInput {
    /// A key went down: the browser's name for it, and the time in milliseconds.
    KeyDown { key: String, now_ms: u64 },
    /// The text field that brings up a phone's keyboard now holds `value`.
    FieldChanged { value: String, now_ms: u64 },
}

/// What the page does with a report.
pub enum PageAction {
    /// Nothing reaches the game.
    Ignore,
    /// The key of this browser name goes to the game.
    Press(String),
}

/// What the key handling remembers between reports: when the last key
/// press was handled, until a change of the text field consumes it.
pub struct KeyListener {
    pub last_keydown_ms: Option<u64>,
}

/// The result of one report: the listener afterwards, the action, and
/// whether the text field is emptied.
pub struct PageStep {
    pub listener: KeyListener,
    pub action: PageAction,
    pub clear_field: bool,
}

/// The text of the key an action hands to the game, if it hands one.
pub open spec fn pressed_key(action: PageAction) -> Option<Seq<char>> {
    match action {
        PageAction::Press(k) => Some(k@),
        PageAction::Ignore => None,
    }
}

/// One report handled by a listener that remembers `last_keydown_ms`: the
/// time remembered afterwards, the key handed to the game, and whether the
/// text field is emptied. A key press the browser cannot name is ignored.
/// Any other key press goes to the game, is remembered with its time, and
/// empties the text field. A change of the text field within the repeat
/// window of the remembered key press is that same key: it is ignored,
/// forgets the key press and empties the field. Otherwise the last character
/// typed into the field goes to the game and the field is emptied; an empty
/// field does nothing.
pub open spec fn listener_step(last_keydown_ms: Option<u64>, input: PageInput) -> (
    Option<u64>,
    Option<Seq<char>>,
    bool,
) {
    match input {
        PageInput::KeyDown { key, now_ms } => if key@ == unidentified_key() {
            (last_keydown_ms, None, false)
        } else {
            (Some(now_ms), Some(key@), true)
        },
        PageInput::FieldChanged { value, now_ms } => if repeats_keydown(last_keydown_ms, now_ms) {
            (None, None, true)
        } else if value@.len() == 0 {
            (last_keydown_ms, None, false)
        } else {
            (last_keydown_ms, Some(seq![value@.last()]), true)
        },
    }
}

impl KeyListener {
    /// A listener that has seen no key press.
    pub fn new() -> (r: KeyListener)
        ensures
            r.last_keydown_ms is None,
    {
        KeyListener { last_keydown_ms: None }
    }

    /// Handles one report; see [listener_step].
    pub fn step(self, input: PageInput) -> (r: PageStep)
        ensures
            (r.listener.last_keydown_ms, pressed_key(r.action), r.clear_field) == listener_step(
                self.last_keydown_ms,
                input,
            ),
    {
        match input {
            PageInput::KeyDown { key, now_ms } => {
                let chars = str_chars(key.as_str());
                let unnamed = str_chars("Unidentified");
                if chars.len() == unnamed.len() && text_contains(&chars, &unnamed) {
                    proof {
                        let w = choose|i: int| occurs_at(chars@, unnamed@, i);
                        assert(w == 0);
                        assert(chars@.subrange(0, chars@.len() as int) =~= chars@);
                    }
                    PageStep { listener: self, action: PageAction::Ignore, clear_field: false }
                } else {
                    proof {
                        if key@ == unidentified_key() {
                            assert(occurs_at(chars@, unnamed@, 0)) by {
                                assert(chars@.subrange(0, chars@.len() as int) =~= chars@);
                            }
                        }
                    }
                    PageStep {
                        listener: KeyListener { last_keydown_ms: Some(now_ms) },
                        action: PageAction::Press(key),
                        clear_field: true,
                    }
                }
            },
            PageInput::FieldChanged { value, now_ms } => {
                let repeated = match self.last_keydown_ms {
                    Some(t) => now_ms < t || now_ms - t < REPEAT_WINDOW_MS,
                    None => false,
                };
                if repeated {
                    PageStep {
                        listener: KeyListener { last_keydown_ms: None },
                        action: PageAction::Ignore,
                        clear_field: true,
                    }
                } else {
                    let chars = str_chars(value.as_str());
                    if chars.len() == 0 {
                        PageStep { listener: self, action: PageAction::Ignore, clear_field: false }
                    } else {
                        let c = chars[chars.len() - 1];
                        PageStep {
                            listener: self,
                            action: PageAction::Press(char_to_string(c)),
                            clear_field: true,
                        }
                    }
                }
            },
        }
    }
}

/// A key press on a phone, which the browser reports both as a key going
/// down and, shortly after, as a change of the text field, reaches the game
/// once: the key press hands over its key, and the change of the field
/// within the repeat window hands over nothing and forgets the key press.
pub proof fn law_key_press_reaches_game_once(
    last_keydown_ms: Option<u64>,
    key: String,
    pressed_at: u64,
    value: String,
    changed_at: u64,
)
    requires
        key@ != unidentified_key(),
        pressed_at <= changed_at < pressed_at + REPEAT_WINDOW_MS,
    ensures
        ({
            let first = listener_step(last_keydown_ms, PageInput::KeyDown { key, now_ms: pressed_at });
            let second = listener_step(first.0, PageInput::FieldChanged { value, now_ms: changed_at });
            &&& first.1 == Some(key@)
            &&& second.1 is None
            &&& second.0 is None
        }),
{
}

/// Whether a key press in a browser goes to the game: not while the meta
/// (command) or control key is held, so that the browser's own shortcuts work.
pub fn game_takes_key(meta: bool, ctrl: bool) -> (r: bool)
    ensures
        r == !(meta || ctrl),
{
    !(meta || ctrl)
}

/// The smallest font size, in pixels, that the page shrinks the game to.
pub const MIN_FONT_SIZE: u16 = 6;

/// The largest font size, in pixels, that the page grows the game to.
pub const MAX_FONT_SIZE: u16 = 16;

/// The font size, in pixels, that the page starts with.
pub const DEFAULT_FONT_SIZE: u16 = 14;

/// How the game's width (with its padding) compares with the window's.
#[derive(Clone, Copy, Debug, PartialEq, Eq, Structural)]
pub enum DisplayFit {
    /// The game is wider than the window.
    TooWide,
    /// The game is narrower than the window.
    Narrower,
    /// The two are equally wide.
    Exact,
}

/// What fitting the font to the window does next.
#[derive(Clone, Copy, Debug, PartialEq, Eq, Structural)]
pub enum FontStep {
    /// The size stays as it is, and fitting ends.
    Stop,
    /// The font takes this size, and the widths are compared again.
    Resize(u16),
}

/// One step of fitting the font to the window, from the current size,
/// whether the size has already been lowered, and how the widths compare:
/// a game too wide shrinks by one pixel down to the smallest size; a game
/// narrower than the window grows by one pixel up to the largest size, but
/// never after a shrink (so that fitting ends); equal widths end fitting.
/// Gives the step and whether the size has been lowered afterwards.
pub open spec fn font_fit_step(font_size: u16, tried_down: bool, fit: DisplayFit) -> (FontStep, bool) {
    match fit {
        DisplayFit::TooWide => if font_size <= MIN_FONT_SIZE {
            (FontStep::Stop, tried_down)
        } else {
            (FontStep::Resize((font_size - 1) as u16), true)
        },
        DisplayFit::Narrower => if tried_down || font_size >= MAX_FONT_SIZE {
            (FontStep::Stop, tried_down)
        } else {
            (FontStep::Resize((font_size + 1) as u16), false)
        },
        DisplayFit::Exact => (FontStep::Stop, tried_down),
    }
}

/// One step of fitting the font to the window; see [font_fit_step].
pub fn font_size_step(font_size: u16, tried_down: bool, fit: DisplayFit) -> (r: (FontStep, bool))
    ensures
        r == font_fit_step(font_size, tried_down, fit),
{
    match fit {
        DisplayFit::TooWide => {
            if font_size <= MIN_FONT_SIZE {
                (FontStep::Stop, tried_down)
            } else {
                (FontStep::Resize(font_size - 1), true)
            }
        },
        DisplayFit::Narrower => {
            if tried_down || font_size >= MAX_FONT_SIZE {
                (FontStep::Stop, tried_down)
            } else {
                (FontStep::Resize(font_size + 1), false)
            }
        },
        DisplayFit::Exact => (FontStep::Stop, tried_down),
    }
}

/// Fitting the font keeps a size between the smallest and the largest within
/// those bounds, and a size once lowered is never raised again.
pub proof fn law_font_fitting_stays_in_bounds(font_size: u16, tried_down: bool, fit: DisplayFit, next: u16)
    requires
        MIN_FONT_SIZE <= font_size <= MAX_FONT_SIZE,
        font_fit_step(font_size, tried_down, fit).0 == FontStep::Resize(next),
    ensures
        MIN_FONT_SIZE <= next <= MAX_FONT_SIZE,
        tried_down ==> next < font_size,
        font_fit_step(font_size, tried_down, fit).1 ==> next < font_size,
{
}

} // verus!
