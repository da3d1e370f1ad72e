use vstd::prelude::*;

use crate::good::Good;
use crate::location::Location;

verus! {

/// Media keys.
#[derive(Debug, PartialEq, Eq, Clone, Copy, Structural)]
pub enum MediaKeyCode {
    Play,
    Pause,
    PlayPause,
    Reverse,
    Stop,
    FastForward,
    Rewind,
    TrackNext,
    TrackPrevious,
    Record,
    LowerVolume,
    RaiseVolume,
    MuteVolume,
}

/// Modifier keys pressed on their own.
#[derive(Debug, PartialEq, Eq, Clone, Copy, Structural)]
pub enum ModifierKeyCode {
    LeftShift,
    LeftControl,
    LeftAlt,
    LeftSuper,
    LeftHyper,
    LeftMeta,
    RightShift,
    RightControl,
    RightAlt,
    RightSuper,
    RightHyper,
    RightMeta,
    IsoLevel3Shift,
    IsoLevel5Shift,
}

/// A key.
#[derive(Debug, PartialEq, Eq, Clone, Copy, Structural)]
pub enum KeyCode {
    Backspace,
    Enter,
    Left,
    Right,
    Up,
    Down,
    Home,
    End,
    PageUp,
    PageDown,
    Tab,
    BackTab,
    Delete,
    Insert,
    F(u8),
    Char(char),
    Null,
    Esc,
    CapsLock,
    ScrollLock,
    NumLock,
    PrintScreen,
    Pause,
    Menu,
    KeypadBegin,
    Media(MediaKeyCode),
    Modifier(ModifierKeyCode),
}

/// The modifier keys held during a key press, one bit each (shift, control,
/// alt, super, hyper, meta).
#[derive(Debug, PartialEq, Eq, Clone, Copy, Structural)]
pub struct KeyModifiers {
    pub bits: u8,
}

impl KeyModifiers {
    /// No modifier held.
    pub fn empty() -> (r: KeyModifiers)
        ensures
            r.bits == 0,
    {
        KeyModifiers { bits: 0 }
    }
}

/// A key press.
#[derive(Debug, PartialEq, Eq, Clone, Copy, Structural)]
pub struct KeyEvent {
    pub code: KeyCode,
    pub modifiers: KeyModifiers,
}

impl KeyEvent {
    /// A key pressed with the given modifiers.
    pub fn new(code: KeyCode, modifiers: KeyModifiers) -> (r: KeyEvent)
        ensures
            r.code == code && r.modifiers == modifiers,
    {
        KeyEvent { code, modifiers }
    }
}

/// The value of a decimal digit character.
pub open spec fn digit_value(c: char) -> Option<u32> {
    if 48 <= (c as u32) <= 57 {
        Some((c as u32 - 48) as u32)
    } else {
        None
    }
}

/// The value of a decimal digit character, as `char::to_digit(10)` gives it.
pub fn char_digit(c: char) -> (r: Option<u32>)
    ensures
        r == digit_value(c),
{
    let n = c as u32;
    if 48 <= n && n <= 57 {
        Some(n - 48)
    } else {
        None
    }
}

/// The good a key chooses: its number in the list (1 to 6) or its letter.
pub open spec fn good_for_key(key: KeyCode) -> Option<Good> {
    match key {
        KeyCode::Char(c) => if c == '1' || c == 't' {
            Some(Good::Tea)
        } else if c == '2' || c == 'c' {
            Some(Good::Coffee)
        } else if c == '3' || c == 's' {
            Some(Good::Sugar)
        } else if c == '4' || c == 'a' {
            Some(Good::Tobacco)
        } else if c == '5' || c == 'r' {
            Some(Good::Rum)
        } else if c == '6' || c == 'o' {
            Some(Good::Cotton)
        } else {
            None
        },
        _ => None,
    }
}

/// The port a key chooses: its number in the list (1 to 6) or its letter.
pub open spec fn location_for_key(key: KeyCode) -> Option<Location> {
    match key {
        KeyCode::Char(c) => if c == '1' || c == 'l' {
            Some(Location::London)
        } else if c == '2' || c == 's' {
            Some(Location::Savannah)
        } else if c == '3' || c == 'i' {
            Some(Location::Lisbon)
        } else if c == '4' || c == 'a' {
            Some(Location::Amsterdam)
        } else if c == '5' || c == 'c' {
            Some(Location::CapeTown)
        } else if c == '6' || c == 'v' {
            Some(Location::Venice)
        } else {
            None
        },
        _ => None,
    }
}

impl Good {
    /// The good a key chooses: its number in the list (1 to 6) or its letter.
    pub fn from_key_code(key_code: &KeyCode) -> (r: Option<Good>)
        ensures
            r == good_for_key(*key_code),
    {
        if let KeyCode::Char(c) = *key_code {
            if c == '1' || c == 't' {
                Some(Good::Tea)
            } else if c == '2' || c == 'c' {
                Some(Good::Coffee)
            } else if c == '3' || c == 's' {
                Some(Good::Sugar)
            } else if c == '4' || c == 'a' {
                Some(Good::Tobacco)
            } else if c == '5' || c == 'r' {
                Some(Good::Rum)
            } else if c == '6' || c == 'o' {
                Some(Good::Cotton)
            } else {
                None
            }
        } else {
            None
        }
    }
}

impl Location {
    /// The port a key chooses: its number in the list (1 to 6) or its letter.
    pub fn from_key_code(key_code: &KeyCode) -> (r: Option<Location>)
        ensures
            r == location_for_key(*key_code),
    {
        if let KeyCode::Char(c) = *key_code {
            if c == '1' || c == 'l' {
                Some(Location::London)
            } else if c == '2' || c == 's' {
                Some(Location::Savannah)
            } else if c == '3' || c == 'i' {
                Some(Location::Lisbon)
            } else if c == '4' || c == 'a' {
                Some(Location::Amsterdam)
            } else if c == '5' || c == 'c' {
                Some(Location::CapeTown)
            } else if c == '6' || c == 'v' {
                Some(Location::Venice)
            } else {
                None
            }
        } else {
            None
        }
    }
}

/// The key that a browser's name for a key stands for, where it is one of
/// the named keys handled.
pub open spec fn named_key(key: Seq<char>) -> Option<KeyCode> {
    if key == "Enter"@ {
        Some(KeyCode::Enter)
    } else if key == "Backspace"@ {
        Some(KeyCode::Backspace)
    } else if key == "Tab"@ {
        Some(KeyCode::Tab)
    } else if key == "Escape"@ {
        Some(KeyCode::Esc)
    } else if key == "ArrowUp"@ {
        Some(KeyCode::Up)
    } else if key == "ArrowDown"@ {
        Some(KeyCode::Down)
    } else if key == "ArrowLeft"@ {
        Some(KeyCode::Left)
    } else if key == "ArrowRight"@ {
        Some(KeyCode::Right)
    } else if key == "Home"@ {
        Some(KeyCode::Home)
    } else if key == "End"@ {
        Some(KeyCode::End)
    } else if key == "PageUp"@ {
        Some(KeyCode::PageUp)
    } else if key == "PageDown"@ {
        Some(KeyCode::PageDown)
    } else if key == "Delete"@ {
        Some(KeyCode::Delete)
    } else if key == "Insert"@ {
        Some(KeyCode::Insert)
    } else {
        None
    }
}

/// The number of a function key written after its `F`: one or two decimal
/// digits, or a plus sign and one digit (the way `u8` parses the text).
pub open spec fn function_key_number(rest: Seq<char>) -> Option<u8> {
    if rest.len() == 1 && digit_value(rest[0]) is Some {
        Some(digit_value(rest[0])->0 as u8)
    } else if rest.len() == 2 && digit_value(rest[0]) is Some && digit_value(rest[1]) is Some {
        Some((digit_value(rest[0])->0 * 10 + digit_value(rest[1])->0) as u8)
    } else if rest.len() == 2 && rest[0] == '+' && digit_value(rest[1]) is Some {
        Some(digit_value(rest[1])->0 as u8)
    } else {
        None
    }
}

/// The key a browser's name for a key stands for: a named key, a single
/// character of one byte, a function key `F` and its number, or no key.
pub open spec fn web_key_code(key: Seq<char>) -> KeyCode {
    if named_key(key) is Some {
        named_key(key)->0
    } else if key.len() == 1 && (key[0] as u32) < 128 {
        KeyCode::Char(key[0])
    } else if key.len() >= 1 && key[0] == 'F' && function_key_number(key.skip(1)) is Some {
        KeyCode::F(function_key_number(key.skip(1))->0)
    } else {
        KeyCode::Null
    }
}

/// The modifier bits of shift, control and alt.
pub open spec fn web_modifier_bits(shift: bool, ctrl: bool, alt: bool) -> u8 {
    ((if shift { 1u8 } else { 0u8 }) + (if ctrl { 2u8 } else { 0u8 }) + (if alt { 4u8 } else { 0u8 })) as u8
}

/// Whether a string equals a literal.
fn is_named(key: &String, name: &str) -> (r: bool)
    ensures
        r == (key@ == name@),
{
    *key == crate::text::str_to_string(name)
}

/// A key press in a browser, given by the browser's name for the key and
/// whether shift, control and alt were held; see [web_key_code].
pub fn convert_web_key_event(key: &str, shift: bool, ctrl: bool, alt: bool) -> (r: KeyEvent)
    ensures
        r.code == web_key_code(key@),
        r.modifiers.bits == web_modifier_bits(shift, ctrl, alt),
{
    let k = crate::text::str_to_string(key);
    let chars = crate::text::str_chars(key);
    let code = if is_named(&k, "Enter") {
        KeyCode::Enter
    } else if is_named(&k, "Backspace") {
        KeyCode::Backspace
    } else if is_named(&k, "Tab") {
        KeyCode::Tab
    } else if is_named(&k, "Escape") {
        KeyCode::Esc
    } else if is_named(&k, "ArrowUp") {
        KeyCode::Up
    } else if is_named(&k, "ArrowDown") {
        KeyCode::Down
    } else if is_named(&k, "ArrowLeft") {
        KeyCode::Left
    } else if is_named(&k, "ArrowRight") {
        KeyCode::Right
    } else if is_named(&k, "Home") {
        KeyCode::Home
    } else if is_named(&k, "End") {
        KeyCode::End
    } else if is_named(&k, "PageUp") {
        KeyCode::PageUp
    } else if is_named(&k, "PageDown") {
        KeyCode::PageDown
    } else if is_named(&k, "Delete") {
        KeyCode::Delete
    } else if is_named(&k, "Insert") {
        KeyCode::Insert
    } else if chars.len() == 1 && (chars[0] as u32) < 128 {
        KeyCode::Char(chars[0])
    } else if chars.len() >= 1 && chars[0] == 'F' {
        let ghost rest = key@.skip(1);
        let n = chars.len();
        if n == 2 && char_digit(chars[1]).is_some() {
            assert(rest =~= seq![chars@[1]]);
            KeyCode::F(char_digit(chars[1]).unwrap() as u8)
        } else if n == 3 && char_digit(chars[1]).is_some() && char_digit(chars[2]).is_some() {
            assert(rest =~= seq![chars@[1], chars@[2]]);
            let tens = char_digit(chars[1]).unwrap();
            let ones = char_digit(chars[2]).unwrap();
            KeyCode::F((tens * 10 + ones) as u8)
        } else if n == 3 && chars[1] == '+' && char_digit(chars[2]).is_some() {
            assert(rest =~= seq![chars@[1], chars@[2]]);
            KeyCode::F(char_digit(chars[2]).unwrap() as u8)
        } else {
            assert(rest.len() == n - 1);
            if n == 2 {
                assert(rest =~= seq![chars@[1]]);
            }
            if n == 3 {
                assert(rest =~= seq![chars@[1], chars@[2]]);
            }
            KeyCode::Null
        }
    } else {
        KeyCode::Null
    };
    let bits: u8 = (if shift { 1u8 } else { 0u8 }) + (if ctrl { 2u8 } else { 0u8 }) + (if alt { 4u8 } else { 0u8 });
    KeyEvent { code, modifiers: KeyModifiers { bits } }
}

} // verus!
