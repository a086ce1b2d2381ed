//! Keyboard shortcuts: parsing from text, display, matching and
//! edge-triggered detection across frames.

use vstd::prelude::*;
use vstd::string::*;
use vstd::utf8::is_ascii_chars;

verus! {

/// A primary key that a shortcut can name.
#[derive(Debug, Clone, Copy, PartialEq, Eq, Hash, Structural)]
pub enum Key {
    A,
    B,
    C,
    D,
    E,
    F,
    G,
    H,
    I,
    J,
    K,
    L,
    M,
    N,
    O,
    P,
    Q,
    R,
    S,
    T,
    U,
    V,
    W,
    X,
    Y,
    Z,
    Num0,
    Num1,
    Num2,
    Num3,
    Num4,
    Num5,
    Num6,
    Num7,
    Num8,
    Num9,
    F1,
    F2,
    F3,
    F4,
    F5,
    F6,
    F7,
    F8,
    F9,
    F10,
    F11,
    F12,
    Enter,
    Space,
    Tab,
    Escape,
    Backspace,
    Delete,
    Home,
    End,
    PageUp,
    PageDown,
    ArrowUp,
    ArrowDown,
    ArrowLeft,
    ArrowRight,
    Minus,
    Equals,
    OpenBracket,
    CloseBracket,
    Semicolon,
    Quote,
    Backtick,
    Backslash,
    Comma,
    Period,
    Slash,
}

/// The key written as a single (lower-case) character, if any.
pub open spec fn key_from_char(c: char) -> Option<Key> {
    match c {
        'a' => Some(Key::A),
        'b' => Some(Key::B),
        'c' => Some(Key::C),
        'd' => Some(Key::D),
        'e' => Some(Key::E),
        'f' => Some(Key::F),
        'g' => Some(Key::G),
        'h' => Some(Key::H),
        'i' => Some(Key::I),
        'j' => Some(Key::J),
        'k' => Some(Key::K),
        'l' => Some(Key::L),
        'm' => Some(Key::M),
        'n' => Some(Key::N),
        'o' => Some(Key::O),
        'p' => Some(Key::P),
        'q' => Some(Key::Q),
        'r' => Some(Key::R),
        's' => Some(Key::S),
        't' => Some(Key::T),
        'u' => Some(Key::U),
        'v' => Some(Key::V),
        'w' => Some(Key::W),
        'x' => Some(Key::X),
        'y' => Some(Key::Y),
        'z' => Some(Key::Z),
        '0' => Some(Key::Num0),
        '1' => Some(Key::Num1),
        '2' => Some(Key::Num2),
        '3' => Some(Key::Num3),
        '4' => Some(Key::Num4),
        '5' => Some(Key::Num5),
        '6' => Some(Key::Num6),
        '7' => Some(Key::Num7),
        '8' => Some(Key::Num8),
        '9' => Some(Key::Num9),
        '-' => Some(Key::Minus),
        '=' => Some(Key::Equals),
        '[' => Some(Key::OpenBracket),
        ']' => Some(Key::CloseBracket),
        ';' => Some(Key::Semicolon),
        '\'' => Some(Key::Quote),
        '`' => Some(Key::Backtick),
        '\\' => Some(Key::Backslash),
        ',' => Some(Key::Comma),
        '.' => Some(Key::Period),
        '/' => Some(Key::Slash),
        _ => None,
    }
}

/// The key written as a word of two or more (lower-case) characters, if any.
pub open spec fn key_from_word(t: Seq<char>) -> Option<Key> {
    if t == "f1"@ {
        Some(Key::F1)
    } else if t == "f2"@ {
        Some(Key::F2)
    } else if t == "f3"@ {
        Some(Key::F3)
    } else if t == "f4"@ {
        Some(Key::F4)
    } else if t == "f5"@ {
        Some(Key::F5)
    } else if t == "f6"@ {
        Some(Key::F6)
    } else if t == "f7"@ {
        Some(Key::F7)
    } else if t == "f8"@ {
        Some(Key::F8)
    } else if t == "f9"@ {
        Some(Key::F9)
    } else if t == "f10"@ {
        Some(Key::F10)
    } else if t == "f11"@ {
        Some(Key::F11)
    } else if t == "f12"@ {
        Some(Key::F12)
    } else if t == "enter"@ {
        Some(Key::Enter)
    } else if t == "return"@ {
        Some(Key::Enter)
    } else if t == "space"@ {
        Some(Key::Space)
    } else if t == "tab"@ {
        Some(Key::Tab)
    } else if t == "escape"@ {
        Some(Key::Escape)
    } else if t == "esc"@ {
        Some(Key::Escape)
    } else if t == "backspace"@ {
        Some(Key::Backspace)
    } else if t == "delete"@ {
        Some(Key::Delete)
    } else if t == "del"@ {
        Some(Key::Delete)
    } else if t == "home"@ {
        Some(Key::Home)
    } else if t == "end"@ {
        Some(Key::End)
    } else if t == "pageup"@ {
        Some(Key::PageUp)
    } else if t == "pgup"@ {
        Some(Key::PageUp)
    } else if t == "pagedown"@ {
        Some(Key::PageDown)
    } else if t == "pgdown"@ {
        Some(Key::PageDown)
    } else if t == "up"@ {
        Some(Key::ArrowUp)
    } else if t == "down"@ {
        Some(Key::ArrowDown)
    } else if t == "left"@ {
        Some(Key::ArrowLeft)
    } else if t == "right"@ {
        Some(Key::ArrowRight)
    } else if t == "minus"@ {
        Some(Key::Minus)
    } else if t == "plus"@ {
        Some(Key::Equals)
    } else {
        None
    }
}

/// The display name of a key, as egui gives it.
pub open spec fn key_name(k: Key) -> Seq<char> {
    match k {
        Key::A => "A"@,
        Key::B => "B"@,
        Key::C => "C"@,
        Key::D => "D"@,
        Key::E => "E"@,
        Key::F => "F"@,
        Key::G => "G"@,
        Key::H => "H"@,
        Key::I => "I"@,
        Key::J => "J"@,
        Key::K => "K"@,
        Key::L => "L"@,
        Key::M => "M"@,
        Key::N => "N"@,
        Key::O => "O"@,
        Key::P => "P"@,
        Key::Q => "Q"@,
        Key::R => "R"@,
        Key::S => "S"@,
        Key::T => "T"@,
        Key::U => "U"@,
        Key::V => "V"@,
        Key::W => "W"@,
        Key::X => "X"@,
        Key::Y => "Y"@,
        Key::Z => "Z"@,
        Key::Num0 => "0"@,
        Key::Num1 => "1"@,
        Key::Num2 => "2"@,
        Key::Num3 => "3"@,
        Key::Num4 => "4"@,
        Key::Num5 => "5"@,
        Key::Num6 => "6"@,
        Key::Num7 => "7"@,
        Key::Num8 => "8"@,
        Key::Num9 => "9"@,
        Key::F1 => "F1"@,
        Key::F2 => "F2"@,
        Key::F3 => "F3"@,
        Key::F4 => "F4"@,
        Key::F5 => "F5"@,
        Key::F6 => "F6"@,
        Key::F7 => "F7"@,
        Key::F8 => "F8"@,
        Key::F9 => "F9"@,
        Key::F10 => "F10"@,
        Key::F11 => "F11"@,
        Key::F12 => "F12"@,
        Key::Enter => "Enter"@,
        Key::Space => "Space"@,
        Key::Tab => "Tab"@,
        Key::Escape => "Escape"@,
        Key::Backspace => "Backspace"@,
        Key::Delete => "Delete"@,
        Key::Home => "Home"@,
        Key::End => "End"@,
        Key::PageUp => "PageUp"@,
        Key::PageDown => "PageDown"@,
        Key::ArrowUp => "Up"@,
        Key::ArrowDown => "Down"@,
        Key::ArrowLeft => "Left"@,
        Key::ArrowRight => "Right"@,
        Key::Minus => "Minus"@,
        Key::Equals => "Equals"@,
        Key::OpenBracket => "OpenBracket"@,
        Key::CloseBracket => "CloseBracket"@,
        Key::Semicolon => "Semicolon"@,
        Key::Quote => "Quote"@,
        Key::Backtick => "Backtick"@,
        Key::Backslash => "Backslash"@,
        Key::Comma => "Comma"@,
        Key::Period => "Period"@,
        Key::Slash => "Slash"@,
    }
}

fn key_from_char_exec(c: char) -> (r: Option<Key>)
    ensures
        r == key_from_char(c),
{
    match c {
        'a' => Some(Key::A),
        'b' => Some(Key::B),
        'c' => Some(Key::C),
        'd' => Some(Key::D),
        'e' => Some(Key::E),
        'f' => Some(Key::F),
        'g' => Some(Key::G),
        'h' => Some(Key::H),
        'i' => Some(Key::I),
        'j' => Some(Key::J),
        'k' => Some(Key::K),
        'l' => Some(Key::L),
        'm' => Some(Key::M),
        'n' => Some(Key::N),
        'o' => Some(Key::O),
        'p' => Some(Key::P),
        'q' => Some(Key::Q),
        'r' => Some(Key::R),
        's' => Some(Key::S),
        't' => Some(Key::T),
        'u' => Some(Key::U),
        'v' => Some(Key::V),
        'w' => Some(Key::W),
        'x' => Some(Key::X),
        'y' => Some(Key::Y),
        'z' => Some(Key::Z),
        '0' => Some(Key::Num0),
        '1' => Some(Key::Num1),
        '2' => Some(Key::Num2),
        '3' => Some(Key::Num3),
        '4' => Some(Key::Num4),
        '5' => Some(Key::Num5),
        '6' => Some(Key::Num6),
        '7' => Some(Key::Num7),
        '8' => Some(Key::Num8),
        '9' => Some(Key::Num9),
        '-' => Some(Key::Minus),
        '=' => Some(Key::Equals),
        '[' => Some(Key::OpenBracket),
        ']' => Some(Key::CloseBracket),
        ';' => Some(Key::Semicolon),
        '\'' => Some(Key::Quote),
        '`' => Some(Key::Backtick),
        '\\' => Some(Key::Backslash),
        ',' => Some(Key::Comma),
        '.' => Some(Key::Period),
        '/' => Some(Key::Slash),
        _ => None,
    }
}

fn key_from_word_exec(t: &str) -> (r: Option<Key>)
    ensures
        r == key_from_word(t@),
{
    if same_text(t, "f1") {
        Some(Key::F1)
    } else if same_text(t, "f2") {
        Some(Key::F2)
    } else if same_text(t, "f3") {
        Some(Key::F3)
    } else if same_text(t, "f4") {
        Some(Key::F4)
    } else if same_text(t, "f5") {
        Some(Key::F5)
    } else if same_text(t, "f6") {
        Some(Key::F6)
    } else if same_text(t, "f7") {
        Some(Key::F7)
    } else if same_text(t, "f8") {
        Some(Key::F8)
    } else if same_text(t, "f9") {
        Some(Key::F9)
    } else if same_text(t, "f10") {
        Some(Key::F10)
    } else if same_text(t, "f11") {
        Some(Key::F11)
    } else if same_text(t, "f12") {
        Some(Key::F12)
    } else if same_text(t, "enter") {
        Some(Key::Enter)
    } else if same_text(t, "return") {
        Some(Key::Enter)
    } else if same_text(t, "space") {
        Some(Key::Space)
    } else if same_text(t, "tab") {
        Some(Key::Tab)
    } else if same_text(t, "escape") {
        Some(Key::Escape)
    } else if same_text(t, "esc") {
        Some(Key::Escape)
    } else if same_text(t, "backspace") {
        Some(Key::Backspace)
    } else if same_text(t, "delete") {
        Some(Key::Delete)
    } else if same_text(t, "del") {
        Some(Key::Delete)
    } else if same_text(t, "home") {
        Some(Key::Home)
    } else if same_text(t, "end") {
        Some(Key::End)
    } else if same_text(t, "pageup") {
        Some(Key::PageUp)
    } else if same_text(t, "pgup") {
        Some(Key::PageUp)
    } else if same_text(t, "pagedown") {
        Some(Key::PageDown)
    } else if same_text(t, "pgdown") {
        Some(Key::PageDown)
    } else if same_text(t, "up") {
        Some(Key::ArrowUp)
    } else if same_text(t, "down") {
        Some(Key::ArrowDown)
    } else if same_text(t, "left") {
        Some(Key::ArrowLeft)
    } else if same_text(t, "right") {
        Some(Key::ArrowRight)
    } else if same_text(t, "minus") {
        Some(Key::Minus)
    } else if same_text(t, "plus") {
        Some(Key::Equals)
    } else {
        None
    }
}

/// The position of the key in `egui::Key::ALL`.
pub open spec fn egui_position(k: Key) -> usize {
    match k {
        Key::A => 46,
        Key::B => 47,
        Key::C => 48,
        Key::D => 49,
        Key::E => 50,
        Key::F => 51,
        Key::G => 52,
        Key::H => 53,
        Key::I => 54,
        Key::J => 55,
        Key::K => 56,
        Key::L => 57,
        Key::M => 58,
        Key::N => 59,
        Key::O => 60,
        Key::P => 61,
        Key::Q => 62,
        Key::R => 63,
        Key::S => 64,
        Key::T => 65,
        Key::U => 66,
        Key::V => 67,
        Key::W => 68,
        Key::X => 69,
        Key::Y => 70,
        Key::Z => 71,
        Key::Num0 => 36,
        Key::Num1 => 37,
        Key::Num2 => 38,
        Key::Num3 => 39,
        Key::Num4 => 40,
        Key::Num5 => 41,
        Key::Num6 => 42,
        Key::Num7 => 43,
        Key::Num8 => 44,
        Key::Num9 => 45,
        Key::F1 => 72,
        Key::F2 => 73,
        Key::F3 => 74,
        Key::F4 => 75,
        Key::F5 => 76,
        Key::F6 => 77,
        Key::F7 => 78,
        Key::F8 => 79,
        Key::F9 => 80,
        Key::F10 => 81,
        Key::F11 => 82,
        Key::F12 => 83,
        Key::Enter => 7,
        Key::Space => 17,
        Key::Tab => 5,
        Key::Escape => 4,
        Key::Backspace => 6,
        Key::Delete => 9,
        Key::Home => 10,
        Key::End => 11,
        Key::PageUp => 12,
        Key::PageDown => 13,
        Key::ArrowUp => 3,
        Key::ArrowDown => 0,
        Key::ArrowLeft => 1,
        Key::ArrowRight => 2,
        Key::Minus => 20,
        Key::Equals => 23,
        Key::OpenBracket => 25,
        Key::CloseBracket => 26,
        Key::Semicolon => 24,
        Key::Quote => 35,
        Key::Backtick => 29,
        Key::Backslash => 30,
        Key::Comma => 19,
        Key::Period => 21,
        Key::Slash => 31,
    }
}

/// Relies on egui::Key::name, on the key at `position` in egui::Key::ALL: it
/// returns the key's display name, as `key_name` lists it.
#[verifier::external_body]
fn egui_key_name(position: usize) -> (r: &'static str)
    requires
        exists|k: Key| egui_position(k) == position,
    ensures
        forall|k: Key| egui_position(k) == position ==> r@ == key_name(k),
{
    egui::Key::ALL[position].name()
}

impl Key {
    /// The position of the key in egui's list of all keys.
    fn egui_index(self) -> (r: usize)
        ensures
            r == egui_position(self),
    {
        match self {
            Key::A => 46,
            Key::B => 47,
            Key::C => 48,
            Key::D => 49,
            Key::E => 50,
            Key::F => 51,
            Key::G => 52,
            Key::H => 53,
            Key::I => 54,
            Key::J => 55,
            Key::K => 56,
            Key::L => 57,
            Key::M => 58,
            Key::N => 59,
            Key::O => 60,
            Key::P => 61,
            Key::Q => 62,
            Key::R => 63,
            Key::S => 64,
            Key::T => 65,
            Key::U => 66,
            Key::V => 67,
            Key::W => 68,
            Key::X => 69,
            Key::Y => 70,
            Key::Z => 71,
            Key::Num0 => 36,
            Key::Num1 => 37,
            Key::Num2 => 38,
            Key::Num3 => 39,
            Key::Num4 => 40,
            Key::Num5 => 41,
            Key::Num6 => 42,
            Key::Num7 => 43,
            Key::Num8 => 44,
            Key::Num9 => 45,
            Key::F1 => 72,
            Key::F2 => 73,
            Key::F3 => 74,
            Key::F4 => 75,
            Key::F5 => 76,
            Key::F6 => 77,
            Key::F7 => 78,
            Key::F8 => 79,
            Key::F9 => 80,
            Key::F10 => 81,
            Key::F11 => 82,
            Key::F12 => 83,
            Key::Enter => 7,
            Key::Space => 17,
            Key::Tab => 5,
            Key::Escape => 4,
            Key::Backspace => 6,
            Key::Delete => 9,
            Key::Home => 10,
            Key::End => 11,
            Key::PageUp => 12,
            Key::PageDown => 13,
            Key::ArrowUp => 3,
            Key::ArrowDown => 0,
            Key::ArrowLeft => 1,
            Key::ArrowRight => 2,
            Key::Minus => 20,
            Key::Equals => 23,
            Key::OpenBracket => 25,
            Key::CloseBracket => 26,
            Key::Semicolon => 24,
            Key::Quote => 35,
            Key::Backtick => 29,
            Key::Backslash => 30,
            Key::Comma => 19,
            Key::Period => 21,
            Key::Slash => 31,
        }
    }

    /// Human-readable name of the key, as shown next to menu entries.
    pub fn name(self) -> (r: &'static str)
        ensures
            r@ == key_name(self),
    {
        egui_key_name(self.egui_index())
    }
}

/// Modifier keys, each held or not.
#[derive(Debug, Clone, Copy, PartialEq, Eq, Hash, Structural)]
pub struct Modifiers {
    /// Alt (Option on macOS).
    pub alt: bool,
    /// Control.
    pub ctrl: bool,
    /// Shift.
    pub shift: bool,
    /// Command, Meta or Super.
    pub command: bool,
}

impl Modifiers {
    /// No modifier held.
    pub fn none() -> (r: Modifiers)
        ensures
            r == no_modifiers(),
    {
        Modifiers { alt: false, ctrl: false, shift: false, command: false }
    }
}

/// The modifier set with nothing held.
pub open spec fn no_modifiers() -> Modifiers {
    Modifiers { alt: false, ctrl: false, shift: false, command: false }
}

/// Keyboard shortcut for menu items: a primary key and the modifiers it needs.
#[derive(Debug, Clone, Copy, PartialEq, Eq, Hash, Structural)]
pub struct KeyboardShortcut {
    /// Primary key that triggers the shortcut.
    pub key: Key,
    /// Modifier state required for the shortcut.
    pub modifiers: Modifiers,
}

/// Whether two texts are the same character sequence.
fn same_text(t: &str, w: &str) -> (r: bool)
    ensures
        r == (t@ == w@),
{
    let n = t.unicode_len();
    if n != w.unicode_len() {
        return false;
    }
    let mut i: usize = 0;
    while i < n
        invariant
            n == t@.len(),
            n == w@.len(),
            i <= n,
            forall|j: int| 0 <= j < i ==> t@[j] == w@[j],
        decreases n - i,
    {
        if t.get_char(i) != w.get_char(i) {
            return false;
        }
        i += 1;
    }
    assert(t@ =~= w@);
    true
}

/// The key written by a (lower-case) token.
pub open spec fn key_from_token(t: Seq<char>) -> Option<Key> {
    if t.len() == 1 {
        key_from_char(t[0])
    } else {
        key_from_word(t)
    }
}

fn key_from_token_exec(t: &str) -> (r: Option<Key>)
    ensures
        r == key_from_token(t@),
{
    if t.unicode_len() == 1 {
        key_from_char_exec(t.get_char(0))
    } else {
        key_from_word_exec(t)
    }
}

impl KeyboardShortcut {
    /// A shortcut on a primary key with no modifiers.
    pub fn new(key: Key) -> (r: KeyboardShortcut)
        ensures
            r.key == key,
            r.modifiers == no_modifiers(),
    {
        KeyboardShortcut { key, modifiers: Modifiers::none() }
    }

    /// Human-readable representation like "Ctrl+Shift+P".
    pub fn display_string(&self) -> (r: String)
        ensures
            r@ == display_of(*self),
    {
        let mut result = String::new();
        if self.modifiers.ctrl {
            result.append("Ctrl+");
        }
        if self.modifiers.alt {
            result.append("Alt+");
        }
        if self.modifiers.shift {
            result.append("Shift+");
        }
        if self.modifiers.command {
            result.append("Cmd+");
        }
        result.append(self.key.name());
        result
    }

    /// Whether this shortcut is exactly the given key with exactly the given modifiers.
    pub fn matches(&self, key: Key, modifiers: Modifiers) -> (r: bool)
        ensures
            r == (self.key == key && self.modifiers == modifiers),
    {
        self.key == key && self.modifiers == modifiers
    }
}

/// The text of a modifier when it is held, else nothing.
pub open spec fn modifier_text(held: bool, text: Seq<char>) -> Seq<char> {
    if held {
        text
    } else {
        Seq::empty()
    }
}

/// Display form: Ctrl, Alt, Shift, Cmd in that order, each followed by `+`,
/// then the key's name.
pub open spec fn display_of(s: KeyboardShortcut) -> Seq<char> {
    modifier_text(s.modifiers.ctrl, "Ctrl+"@) + modifier_text(s.modifiers.alt, "Alt+"@)
        + modifier_text(s.modifiers.shift, "Shift+"@) + modifier_text(s.modifiers.command, "Cmd+"@)
        + key_name(s.key)
}

/// Parse error for shortcut strings.
#[derive(Debug, Clone)]
pub enum ShortcutParseError {
    /// Unknown or unsupported key token, e.g. "foobar" (lower-cased).
    InvalidKey(String),
    /// Unknown or unsupported modifier token, e.g. "hyper" (as written).
    InvalidModifier(String),
    /// General formatting issue: the text is empty.
    InvalidFormat(String),
}

/// What parsing a text yields, over plain sequences.
pub enum ShortcutParse {
    Parsed(KeyboardShortcut),
    BadKey(Seq<char>),
    BadModifier(Seq<char>),
    BadFormat(Seq<char>),
}

/// The outcome that a parse result stands for.
pub open spec fn outcome_of(r: Result<KeyboardShortcut, ShortcutParseError>) -> ShortcutParse {
    match r {
        Ok(s) => ShortcutParse::Parsed(s),
        Err(ShortcutParseError::InvalidKey(t)) => ShortcutParse::BadKey(t@),
        Err(ShortcutParseError::InvalidModifier(t)) => ShortcutParse::BadModifier(t@),
        Err(ShortcutParseError::InvalidFormat(t)) => ShortcutParse::BadFormat(t@),
    }
}

/// ASCII lower case of one character; every other character is kept.
pub open spec fn lower_char(c: char) -> char {
    match c {
        'A' => 'a',
        'B' => 'b',
        'C' => 'c',
        'D' => 'd',
        'E' => 'e',
        'F' => 'f',
        'G' => 'g',
        'H' => 'h',
        'I' => 'i',
        'J' => 'j',
        'K' => 'k',
        'L' => 'l',
        'M' => 'm',
        'N' => 'n',
        'O' => 'o',
        'P' => 'p',
        'Q' => 'q',
        'R' => 'r',
        'S' => 's',
        'T' => 't',
        'U' => 'u',
        'V' => 'v',
        'W' => 'w',
        'X' => 'x',
        'Y' => 'y',
        'Z' => 'z',
        _ => c,
    }
}

/// ASCII lower case of a text.
pub open spec fn ascii_lower(s: Seq<char>) -> Seq<char> {
    s.map_values(|c: char| lower_char(c))
}

/// Unicode lower case of a text, as `str::to_lowercase` computes it.
pub uninterp spec fn lower_of(s: Seq<char>) -> Seq<char>;

/// Lower case of a text: on ASCII text, 'A' to 'Z' become 'a' to 'z' and
/// nothing else changes; on other text, Unicode's lower-case mapping.
pub open spec fn unicode_lower(s: Seq<char>) -> Seq<char> {
    if is_ascii_chars(s) {
        ascii_lower(s)
    } else {
        lower_of(s)
    }
}

/// Relies on str::to_lowercase: the lower-case equivalent of the text, by
/// Unicode's Lowercase property, which on ASCII maps 'A' to 'Z' to 'a' to 'z'
/// and keeps every other character.
#[verifier::external_body]
fn lowercase(s: &str) -> (r: String)
    ensures
        r@ == lower_of(s@),
        r@ == unicode_lower(s@),
{
    s.to_lowercase()
}

/// The tokens of a text separated by `+`; there is always at least one.
pub open spec fn split_plus(s: Seq<char>) -> Seq<Seq<char>>
    decreases s.len(),
{
    if s.len() == 0 {
        seq![Seq::<char>::empty()]
    } else {
        let pre = split_plus(s.drop_last());
        if s.last() == '+' {
            pre.push(Seq::<char>::empty())
        } else {
            pre.update(pre.len() - 1, pre.last().push(s.last()))
        }
    }
}

/// The modifiers after adding the one that a (lower-case) token names, if it names one.
pub open spec fn add_modifier(m: Modifiers, t: Seq<char>) -> Option<Modifiers> {
    if t == "ctrl"@ || t == "control"@ {
        Some(Modifiers { ctrl: true, ..m })
    } else if t == "alt"@ {
        Some(Modifiers { alt: true, ..m })
    } else if t == "shift"@ {
        Some(Modifiers { shift: true, ..m })
    } else if t == "cmd"@ || t == "meta"@ || t == "super"@ {
        Some(Modifiers { command: true, ..m })
    } else {
        None
    }
}

/// The modifiers named by a list of tokens, or the first token (as written)
/// that names none.
pub open spec fn scan_modifiers(toks: Seq<Seq<char>>) -> Result<Modifiers, Seq<char>>
    decreases toks.len(),
{
    if toks.len() == 0 {
        Ok(no_modifiers())
    } else {
        match scan_modifiers(toks.drop_last()) {
            Err(e) => Err(e),
            Ok(m) => match add_modifier(m, unicode_lower(toks.last())) {
                Some(m2) => Ok(m2),
                None => Err(toks.last()),
            },
        }
    }
}

/// What a shortcut text means: modifier tokens joined by `+`, the last token
/// being the key; tokens are case-insensitive. An empty text is malformed; an
/// unknown modifier is reported as written, an unknown key lower-cased.
pub open spec fn parse_shortcut(s: Seq<char>) -> ShortcutParse {
    if s.len() == 0 {
        ShortcutParse::BadFormat(s)
    } else {
        let toks = split_plus(s);
        match scan_modifiers(toks.drop_last()) {
            Err(t) => ShortcutParse::BadModifier(t),
            Ok(m) => {
                let kt = unicode_lower(toks.last());
                match key_from_token(kt) {
                    Some(k) => ShortcutParse::Parsed(KeyboardShortcut { key: k, modifiers: m }),
                    None => ShortcutParse::BadKey(kt),
                }
            },
        }
    }
}

fn add_modifier_exec(m: Modifiers, t: &str) -> (r: Option<Modifiers>)
    ensures
        r == add_modifier(m, t@),
{
    if same_text(t, "ctrl") || same_text(t, "control") {
        Some(Modifiers { ctrl: true, ..m })
    } else if same_text(t, "alt") {
        Some(Modifiers { alt: true, ..m })
    } else if same_text(t, "shift") {
        Some(Modifiers { shift: true, ..m })
    } else if same_text(t, "cmd") || same_text(t, "meta") || same_text(t, "super") {
        Some(Modifiers { command: true, ..m })
    } else {
        None
    }
}

proof fn lemma_split_nonempty(s: Seq<char>)
    ensures
        split_plus(s).len() >= 1,
    decreases s.len(),
{
    if s.len() > 0 {
        lemma_split_nonempty(s.drop_last());
    }
}

/// Every token of a prefix but its last is a token of the whole text.
proof fn lemma_split_prefix(s: Seq<char>, j: int)
    requires
        0 <= j <= s.len(),
    ensures
        split_plus(s.take(j)).len() <= split_plus(s).len(),
        forall|i: int|
            0 <= i < split_plus(s.take(j)).len() - 1 ==> split_plus(s.take(j))[i]
                == split_plus(s)[i],
    decreases s.len(),
{
    lemma_split_nonempty(s);
    if j == s.len() {
        assert(s.take(j) =~= s);
    } else {
        let d = s.drop_last();
        assert(d.take(j) =~= s.take(j));
        lemma_split_prefix(d, j);
        lemma_split_nonempty(d);
    }
}

/// A failure on a prefix of the tokens is the failure on all of them.
proof fn lemma_scan_prefix(xs: Seq<Seq<char>>, ys: Seq<Seq<char>>)
    requires
        xs.len() <= ys.len(),
        xs == ys.take(xs.len() as int),
        scan_modifiers(xs) is Err,
    ensures
        scan_modifiers(ys) == scan_modifiers(xs),
    decreases ys.len(),
{
    if xs.len() < ys.len() {
        assert(ys.drop_last().take(xs.len() as int) =~= xs);
        lemma_scan_prefix(xs, ys.drop_last());
    } else {
        assert(ys =~= xs);
    }
}

impl KeyboardShortcut {
    /// Parse a shortcut from text such as "t", "ctrl+t", "ctrl+shift+t" or "alt+f4".
    pub fn from_string(shortcut: &str) -> (r: Result<KeyboardShortcut, ShortcutParseError>)
        ensures
            outcome_of(r) == parse_shortcut(shortcut@),
    {
        let n = shortcut.unicode_len();
        if n == 0 {
            return Err(ShortcutParseError::InvalidFormat(String::from_str(shortcut)));
        }
        let ghost s = shortcut@;
        let mut modifiers = Modifiers::none();
        let mut start: usize = 0;
        let mut i: usize = 0;
        let ghost mut done: Seq<Seq<char>> = Seq::empty();
        assert(s.take(0) =~= Seq::<char>::empty());
        assert(s.subrange(0, 0) =~= Seq::<char>::empty());
        assert(split_plus(s.take(0)) =~= done.push(s.subrange(0, 0)));
        while i < n
            invariant
                n == s.len(),
                s == shortcut@,
                start <= i <= n,
                split_plus(s.take(i as int)) == done.push(s.subrange(start as int, i as int)),
                scan_modifiers(done) == Ok::<Modifiers, Seq<char>>(modifiers),
            decreases n - i,
        {
            let c = shortcut.get_char(i);
            assert(s.take(i + 1).drop_last() =~= s.take(i as int));
            assert(s.take(i + 1).last() == c);
            if c == '+' {
                let part = shortcut.substring_char(start, i);
                let lowered = lowercase(part);
                let next = add_modifier_exec(modifiers, lowered.as_str());
                assert(done.push(part@).drop_last() =~= done);
                match next {
                    Some(m) => {
                        modifiers = m;
                    },
                    None => {
                        proof {
                            let toks = split_plus(s);
                            let pre = split_plus(s.take(i + 1));
                            assert(pre =~= done.push(part@).push(Seq::<char>::empty()));
                            lemma_split_prefix(s, i + 1);
                            lemma_split_nonempty(s);
                            let xs = done.push(part@);
                            assert(xs =~= toks.drop_last().take(xs.len() as int));
                            lemma_scan_prefix(xs, toks.drop_last());
                        }
                        return Err(ShortcutParseError::InvalidModifier(String::from_str(part)));
                    },
                }
                proof {
                    done = done.push(part@);
                }
                start = i + 1;
                assert(s.subrange(start as int, i + 1) =~= Seq::<char>::empty());
            } else {
                assert(s.subrange(start as int, i + 1) =~= s.subrange(start as int, i as int).push(c));
            }
            i += 1;
        }
        assert(s.take(n as int) =~= s);
        let last = shortcut.substring_char(start, n);
        let key_str = lowercase(last);
        assert(split_plus(s).drop_last() =~= done);
        match key_from_token_exec(key_str.as_str()) {
            Some(key) => Ok(KeyboardShortcut { key, modifiers }),
            None => Err(ShortcutParseError::InvalidKey(key_str)),
        }
    }

    /// Parse a shortcut from text known to be valid (a literal, say).
    pub fn parse(shortcut: &str) -> (r: KeyboardShortcut)
        requires
            parse_shortcut(shortcut@) is Parsed,
        ensures
            parse_shortcut(shortcut@) == ShortcutParse::Parsed(r),
    {
        match Self::from_string(shortcut) {
            Ok(s) => s,
            Err(_) => {
                assert(false);
                Self::new(Key::A)
            },
        }
    }
}

/// What the keyboard looks like in one frame: the keys pressed and the
/// modifiers held.
#[derive(Debug, Clone)]
pub struct InputSnapshot {
    /// Keys pressed this frame.
    pub keys_pressed: Vec<Key>,
    /// Modifiers held this frame.
    pub modifiers: Modifiers,
}

impl KeyboardShortcut {
    /// Whether a frame's input satisfies this shortcut: its key is pressed; where
    /// it asks for Ctrl, Ctrl or Command is held, and where it does not, neither
    /// is; Alt and Shift are held exactly as it asks.
    pub open spec fn satisfied_by(self, keys: Seq<Key>, held: Modifiers) -> bool {
        &&& keys.contains(self.key)
        &&& if self.modifiers.ctrl {
            held.ctrl || held.command
        } else {
            !held.ctrl && !held.command
        }
        &&& held.alt == self.modifiers.alt
        &&& held.shift == self.modifiers.shift
    }

    /// Whether a frame's input satisfies this shortcut (see `satisfied_by`).
    pub fn satisfied(&self, input: &InputSnapshot) -> (r: bool)
        ensures
            r == self.satisfied_by(input.keys_pressed@, input.modifiers),
    {
        let mut found = false;
        let mut i: usize = 0;
        while i < input.keys_pressed.len()
            invariant
                i <= input.keys_pressed@.len(),
                found == (exists|j: int| 0 <= j < i && input.keys_pressed@[j] == self.key),
            decreases input.keys_pressed@.len() - i,
        {
            if input.keys_pressed[i] == self.key {
                found = true;
            }
            i += 1;
        }
        let held = input.modifiers;
        let ctrl_held = held.ctrl || held.command;
        let ctrl_match = if self.modifiers.ctrl {
            ctrl_held
        } else {
            !ctrl_held
        };
        found && ctrl_match && held.alt == self.modifiers.alt && held.shift == self.modifiers.shift
    }

    /// Whether this shortcut was pressed this frame and not in the frame before,
    /// as recorded in `states`; records this frame's answer there. Shortcuts with
    /// the same key and modifiers share their record.
    pub fn just_pressed(&self, states: &mut ShortcutStates, input: &InputSnapshot) -> (r: bool)
        requires
            old(states).wf(),
        ensures
            final(states).wf(),
            r == (self.satisfied_by(input.keys_pressed@, input.modifiers) && !old(states)@[*self]),
            final(states)@ == old(states)@.insert(*self, self.satisfied_by(input.keys_pressed@, input.modifiers)),
    {
        let current = self.satisfied(input);
        let was_pressed = states.record(*self, current);
        current && !was_pressed
    }
}

/// What each shortcut did in the previous frame: pressed or not. A shortcut
/// never seen counts as not pressed.
pub struct ShortcutStates {
    entries: Vec<(KeyboardShortcut, bool)>,
}

impl ShortcutStates {
    /// Each shortcut has at most one entry.
    pub closed spec fn wf(&self) -> bool {
        forall|i: int, j: int|
            0 <= i < j < self.entries@.len() ==> self.entries@[i].0 != self.entries@[j].0
    }

    /// Whether the shortcut has an entry that says pressed.
    pub closed spec fn pressed(&self, s: KeyboardShortcut) -> bool {
        exists|i: int| 0 <= i < self.entries@.len() && self.entries@[i] == (s, true)
    }

    /// The table as a map from shortcut to "pressed in the previous frame".
    pub closed spec fn view(&self) -> Map<KeyboardShortcut, bool> {
        Map::total(|s: KeyboardShortcut| self.pressed(s))
    }

    /// An empty table: nothing pressed.
    pub fn new() -> (r: ShortcutStates)
        ensures
            r.wf(),
            r@ == Map::total(|s: KeyboardShortcut| false),
    {
        let r = ShortcutStates { entries: Vec::new() };
        assert(r@ =~= Map::total(|s: KeyboardShortcut| false));
        r
    }

    /// Record whether `s` is pressed now; returns whether it was before.
    fn record(&mut self, s: KeyboardShortcut, now: bool) -> (was: bool)
        requires
            old(self).wf(),
        ensures
            final(self).wf(),
            was == old(self)@[s],
            final(self)@ == old(self)@.insert(s, now),
    {
        let mut i: usize = 0;
        while i < self.entries.len()
            invariant
                self.wf(),
                *self == *old(self),
                i <= self.entries@.len(),
                forall|j: int| 0 <= j < i ==> self.entries@[j].0 != s,
            decreases self.entries@.len() - i,
        {
            if self.entries[i].0 == s {
                let was = self.entries[i].1;
                let ghost before = *self;
                self.entries.set(i, (s, now));
                proof {
                    if before.pressed(s) {
                        let k = choose|k: int| 0 <= k < before.entries@.len() && before.entries@[k] == (s, true);
                        assert(k == i);
                    }
                    if was {
                        assert(before.entries@[i as int] == (s, true));
                    }
                    assert(was == before@[s]);
                    assert forall|a: int, b: int| 0 <= a < b < self.entries@.len() implies self.entries@[a].0 != self.entries@[b].0 by {
                        assert(before.entries@[a].0 != before.entries@[b].0);
                    }
                    assert forall|t: KeyboardShortcut| #[trigger] self.pressed(t) == before@.insert(s, now)[t] by {
                        if t == s {
                            if now {
                                assert(self.entries@[i as int] == (t, true));
                            }
                        } else {
                            if before.pressed(t) {
                                let k = choose|k: int| 0 <= k < before.entries@.len() && before.entries@[k] == (t, true);
                                assert(self.entries@[k] == (t, true));
                            }
                            if self.pressed(t) {
                                let k = choose|k: int| 0 <= k < self.entries@.len() && self.entries@[k] == (t, true);
                                assert(before.entries@[k] == (t, true));
                            }
                        }
                    }
                    assert(self@ =~= before@.insert(s, now));
                }
                return was;
            }
            i += 1;
        }
        let ghost before = *self;
        self.entries.push((s, now));
        proof {
            if before.pressed(s) {
                let k = choose|k: int| 0 <= k < before.entries@.len() && before.entries@[k] == (s, true);
                assert(before.entries@[k].0 != s);
            }
            assert forall|a: int, b: int| 0 <= a < b < self.entries@.len() implies self.entries@[a].0 != self.entries@[b].0 by {
                if b < before.entries@.len() {
                    assert(before.entries@[a].0 != before.entries@[b].0);
                }
            }
            assert forall|t: KeyboardShortcut| #[trigger] self.pressed(t) == before@.insert(s, now)[t] by {
                if t == s {
                    if now {
                        assert(self.entries@[before.entries@.len() as int] == (t, true));
                    }
                } else {
                    if before.pressed(t) {
                        let k = choose|k: int| 0 <= k < before.entries@.len() && before.entries@[k] == (t, true);
                        assert(self.entries@[k] == (t, true));
                    }
                    if self.pressed(t) {
                        let k = choose|k: int| 0 <= k < self.entries@.len() && self.entries@[k] == (t, true);
                        assert(before.entries@[k] == (t, true));
                    }
                }
            }
            assert(self@ =~= before@.insert(s, now));
        }
        false
    }
}

/// Checking a list of optional shortcuts, in order, against one frame: the
/// positions whose shortcut was just pressed and which may run, and the
/// table afterwards. Every shortcut in the list is recorded, runnable or not.
pub open spec fn shortcut_run(
    slots: Seq<(Option<KeyboardShortcut>, bool)>,
    m: Map<KeyboardShortcut, bool>,
    keys: Seq<Key>,
    held: Modifiers,
) -> (Seq<usize>, Map<KeyboardShortcut, bool>)
    decreases slots.len(),
{
    if slots.len() == 0 {
        (Seq::empty(), m)
    } else {
        let (fired, m1) = shortcut_run(slots.drop_last(), m, keys, held);
        let (sc, runnable) = slots.last();
        match sc {
            None => (fired, m1),
            Some(s) => {
                let sat = s.satisfied_by(keys, held);
                let pressed = sat && !m1[s];
                let fired2 = if pressed && runnable {
                    fired.push((slots.len() - 1) as usize)
                } else {
                    fired
                };
                (fired2, m1.insert(s, sat))
            },
        }
    }
}

/// Check each optional shortcut of `slots` in order with `just_pressed`;
/// returns the positions whose shortcut was just pressed and which may run.
pub fn run_shortcuts(
    slots: &Vec<(Option<KeyboardShortcut>, bool)>,
    states: &mut ShortcutStates,
    input: &InputSnapshot,
) -> (r: Vec<usize>)
    requires
        old(states).wf(),
    ensures
        final(states).wf(),
        (r@, final(states)@) == shortcut_run(slots@, old(states)@, input.keys_pressed@, input.modifiers),
{
    let mut fired: Vec<usize> = Vec::new();
    let mut i: usize = 0;
    while i < slots.len()
        invariant
            states.wf(),
            i <= slots@.len(),
            (fired@, states@) == shortcut_run(
                slots@.take(i as int),
                old(states)@,
                input.keys_pressed@,
                input.modifiers,
            ),
        decreases slots@.len() - i,
    {
        assert(slots@.take(i + 1).drop_last() =~= slots@.take(i as int));
        let (sc, runnable) = slots[i];
        match sc {
            None => {},
            Some(s) => {
                if s.just_pressed(states, input) && runnable {
                    fired.push(i);
                }
            },
        }
        i += 1;
    }
    assert(slots@.take(slots@.len() as int) =~= slots@);
    fired
}

/// Whether a key's display name, lower-cased, is one of the key's own tokens.
/// It is not for the punctuation keys other than minus, whose names
/// ("Equals", "Comma", ...) are words that the parser does not know.
pub open spec fn name_is_token(k: Key) -> bool {
    !(k == Key::Equals
            || k == Key::OpenBracket
            || k == Key::CloseBracket
            || k == Key::Semicolon
            || k == Key::Quote
            || k == Key::Backtick
            || k == Key::Backslash
            || k == Key::Comma
            || k == Key::Period
            || k == Key::Slash)
}

proof fn lemma_single_char_name(k: Key)
    requires
        key_name(k).len() == 1,
        '\0' <= key_name(k)[0] <= '\u{7f}',
        key_from_char(lower_char(key_name(k)[0])) == Some(k),
    ensures
        key_from_token(ascii_lower(key_name(k))) == Some(k),
        is_ascii_chars(key_name(k)),
        !key_name(k).contains('+'),
{
    assert forall|i: int| 0 <= i < key_name(k).len() implies '\0' <= #[trigger] key_name(k)[i] <= '\u{7f}' by {
        assert(i == 0);
    }
    assert(ascii_lower(key_name(k)).len() == 1);
    assert(ascii_lower(key_name(k))[0] == lower_char(key_name(k)[0]));
    assert(key_name(k)[0] != '+');
}

/// A key whose name is one of its tokens parses back from its name, which
/// holds no `+`.
proof fn lemma_key_name_parses(k: Key)
    requires
        name_is_token(k),
    ensures
        key_from_token(ascii_lower(key_name(k))) == Some(k),
        key_from_token(unicode_lower(key_name(k))) == Some(k),
        is_ascii_chars(key_name(k)),
        !key_name(k).contains('+'),
        key_name(k).len() > 0,
{
    match k {
        Key::A => {
            reveal_strlit("A");
            lemma_single_char_name(k);
        },
        Key::B => {
            reveal_strlit("B");
            lemma_single_char_name(k);
        },
        Key::C => {
            reveal_strlit("C");
            lemma_single_char_name(k);
        },
        Key::D => {
            reveal_strlit("D");
            lemma_single_char_name(k);
        },
        Key::E => {
            reveal_strlit("E");
            lemma_single_char_name(k);
        },
        Key::F => {
            reveal_strlit("F");
            lemma_single_char_name(k);
        },
        Key::G => {
            reveal_strlit("G");
            lemma_single_char_name(k);
        },
        Key::H => {
            reveal_strlit("H");
            lemma_single_char_name(k);
        },
        Key::I => {
            reveal_strlit("I");
            lemma_single_char_name(k);
        },
        Key::J => {
            reveal_strlit("J");
            lemma_single_char_name(k);
        },
        Key::K => {
            reveal_strlit("K");
            lemma_single_char_name(k);
        },
        Key::L => {
            reveal_strlit("L");
            lemma_single_char_name(k);
        },
        Key::M => {
            reveal_strlit("M");
            lemma_single_char_name(k);
        },
        Key::N => {
            reveal_strlit("N");
            lemma_single_char_name(k);
        },
        Key::O => {
            reveal_strlit("O");
            lemma_single_char_name(k);
        },
        Key::P => {
            reveal_strlit("P");
            lemma_single_char_name(k);
        },
        Key::Q => {
            reveal_strlit("Q");
            lemma_single_char_name(k);
        },
        Key::R => {
            reveal_strlit("R");
            lemma_single_char_name(k);
        },
        Key::S => {
            reveal_strlit("S");
            lemma_single_char_name(k);
        },
        Key::T => {
            reveal_strlit("T");
            lemma_single_char_name(k);
        },
        Key::U => {
            reveal_strlit("U");
            lemma_single_char_name(k);
        },
        Key::V => {
            reveal_strlit("V");
            lemma_single_char_name(k);
        },
        Key::W => {
            reveal_strlit("W");
            lemma_single_char_name(k);
        },
        Key::X => {
            reveal_strlit("X");
            lemma_single_char_name(k);
        },
        Key::Y => {
            reveal_strlit("Y");
            lemma_single_char_name(k);
        },
        Key::Z => {
            reveal_strlit("Z");
            lemma_single_char_name(k);
        },
        Key::Num0 => {
            reveal_strlit("0");
            lemma_single_char_name(k);
        },
        Key::Num1 => {
            reveal_strlit("1");
            lemma_single_char_name(k);
        },
        Key::Num2 => {
            reveal_strlit("2");
            lemma_single_char_name(k);
        },
        Key::Num3 => {
            reveal_strlit("3");
            lemma_single_char_name(k);
        },
        Key::Num4 => {
            reveal_strlit("4");
            lemma_single_char_name(k);
        },
        Key::Num5 => {
            reveal_strlit("5");
            lemma_single_char_name(k);
        },
        Key::Num6 => {
            reveal_strlit("6");
            lemma_single_char_name(k);
        },
        Key::Num7 => {
            reveal_strlit("7");
            lemma_single_char_name(k);
        },
        Key::Num8 => {
            reveal_strlit("8");
            lemma_single_char_name(k);
        },
        Key::Num9 => {
            reveal_strlit("9");
            lemma_single_char_name(k);
        },
        Key::F1 => lemma_word_name_parses(k),
        Key::F2 => lemma_word_name_parses(k),
        Key::F3 => lemma_word_name_parses(k),
        Key::F4 => lemma_word_name_parses(k),
        Key::F5 => lemma_word_name_parses(k),
        Key::F6 => lemma_word_name_parses(k),
        Key::F7 => lemma_word_name_parses(k),
        Key::F8 => lemma_word_name_parses(k),
        Key::F9 => lemma_word_name_parses(k),
        Key::F10 => lemma_word_name_parses(k),
        Key::F11 => lemma_word_name_parses(k),
        Key::F12 => lemma_word_name_parses(k),
        Key::Enter => lemma_word_name_parses(k),
        Key::Space => lemma_word_name_parses(k),
        Key::Tab => lemma_word_name_parses(k),
        Key::Escape => lemma_word_name_parses(k),
        Key::Backspace => lemma_word_name_parses(k),
        Key::Delete => lemma_word_name_parses(k),
        Key::Home => lemma_word_name_parses(k),
        Key::End => lemma_word_name_parses(k),
        Key::PageUp => lemma_word_name_parses(k),
        Key::PageDown => lemma_word_name_parses(k),
        Key::ArrowUp => lemma_word_name_parses(k),
        Key::ArrowDown => lemma_word_name_parses(k),
        Key::ArrowLeft => lemma_word_name_parses(k),
        Key::ArrowRight => lemma_word_name_parses(k),
        Key::Minus => lemma_word_name_parses(k),
        _ => {},
    }
}

proof fn lemma_word_name_parses(k: Key)
    requires
        k == Key::F1
            || k == Key::F2
            || k == Key::F3
            || k == Key::F4
            || k == Key::F5
            || k == Key::F6
            || k == Key::F7
            || k == Key::F8
            || k == Key::F9
            || k == Key::F10
            || k == Key::F11
            || k == Key::F12
            || k == Key::Enter
            || k == Key::Space
            || k == Key::Tab
            || k == Key::Escape
            || k == Key::Backspace
            || k == Key::Delete
            || k == Key::Home
            || k == Key::End
            || k == Key::PageUp
            || k == Key::PageDown
            || k == Key::ArrowUp
            || k == Key::ArrowDown
            || k == Key::ArrowLeft
            || k == Key::ArrowRight
            || k == Key::Minus,
    ensures
        key_from_token(ascii_lower(key_name(k))) == Some(k),
        key_from_token(unicode_lower(key_name(k))) == Some(k),
        is_ascii_chars(key_name(k)),
        !key_name(k).contains('+'),
        key_name(k).len() > 0,
{
    reveal_strlit("f1");
    reveal_strlit("f2");
    reveal_strlit("f3");
    reveal_strlit("f4");
    reveal_strlit("f5");
    reveal_strlit("f6");
    reveal_strlit("f7");
    reveal_strlit("f8");
    reveal_strlit("f9");
    reveal_strlit("f10");
    reveal_strlit("f11");
    reveal_strlit("f12");
    reveal_strlit("enter");
    reveal_strlit("return");
    reveal_strlit("space");
    reveal_strlit("tab");
    reveal_strlit("escape");
    reveal_strlit("esc");
    reveal_strlit("backspace");
    reveal_strlit("delete");
    reveal_strlit("del");
    reveal_strlit("home");
    reveal_strlit("end");
    reveal_strlit("pageup");
    reveal_strlit("pgup");
    reveal_strlit("pagedown");
    reveal_strlit("pgdown");
    reveal_strlit("up");
    reveal_strlit("down");
    reveal_strlit("left");
    reveal_strlit("right");
    reveal_strlit("minus");
    reveal_strlit("plus");
    match k {
        Key::F1 => {
            reveal_strlit("F1");
            assert(ascii_lower(key_name(k)) =~= "f1"@);
            assert forall|i: int| 0 <= i < key_name(k).len() implies '\0' <= #[trigger] key_name(k)[i] <= '\u{7f}' by {
                assert(i == 0 || i == 1);
            }
            assert(key_from_token("f1"@) == Some(Key::F1));
        },
        Key::F2 => {
            reveal_strlit("F2");
            assert(ascii_lower(key_name(k)) =~= "f2"@);
            assert forall|i: int| 0 <= i < key_name(k).len() implies '\0' <= #[trigger] key_name(k)[i] <= '\u{7f}' by {
                assert(i == 0 || i == 1);
            }
            assert("f2"@[1] != "f1"@[1]);
            assert(key_from_token("f2"@) == Some(Key::F2));
        },
        Key::F3 => {
            reveal_strlit("F3");
            assert(ascii_lower(key_name(k)) =~= "f3"@);
            assert forall|i: int| 0 <= i < key_name(k).len() implies '\0' <= #[trigger] key_name(k)[i] <= '\u{7f}' by {
                assert(i == 0 || i == 1);
            }
            assert("f3"@[1] != "f1"@[1]);
            assert("f3"@[1] != "f2"@[1]);
            assert(key_from_token("f3"@) == Some(Key::F3));
        },
        Key::F4 => {
            reveal_strlit("F4");
            assert(ascii_lower(key_name(k)) =~= "f4"@);
            assert forall|i: int| 0 <= i < key_name(k).len() implies '\0' <= #[trigger] key_name(k)[i] <= '\u{7f}' by {
                assert(i == 0 || i == 1);
            }
            assert("f4"@[1] != "f1"@[1]);
            assert("f4"@[1] != "f2"@[1]);
            assert("f4"@[1] != "f3"@[1]);
            assert(key_from_token("f4"@) == Some(Key::F4));
        },
        Key::F5 => {
            reveal_strlit("F5");
            assert(ascii_lower(key_name(k)) =~= "f5"@);
            assert forall|i: int| 0 <= i < key_name(k).len() implies '\0' <= #[trigger] key_name(k)[i] <= '\u{7f}' by {
                assert(i == 0 || i == 1);
            }
            assert("f5"@[1] != "f1"@[1]);
            assert("f5"@[1] != "f2"@[1]);
            assert("f5"@[1] != "f3"@[1]);
            assert("f5"@[1] != "f4"@[1]);
            assert(key_from_token("f5"@) == Some(Key::F5));
        },
        Key::F6 => {
            reveal_strlit("F6");
            assert(ascii_lower(key_name(k)) =~= "f6"@);
            assert forall|i: int| 0 <= i < key_name(k).len() implies '\0' <= #[trigger] key_name(k)[i] <= '\u{7f}' by {
                assert(i == 0 || i == 1);
            }
            assert("f6"@[1] != "f1"@[1]);
            assert("f6"@[1] != "f2"@[1]);
            assert("f6"@[1] != "f3"@[1]);
            assert("f6"@[1] != "f4"@[1]);
            assert("f6"@[1] != "f5"@[1]);
            assert(key_from_token("f6"@) == Some(Key::F6));
        },
        Key::F7 => {
            reveal_strlit("F7");
            assert(ascii_lower(key_name(k)) =~= "f7"@);
            assert forall|i: int| 0 <= i < key_name(k).len() implies '\0' <= #[trigger] key_name(k)[i] <= '\u{7f}' by {
                assert(i == 0 || i == 1);
            }
            assert("f7"@[1] != "f1"@[1]);
            assert("f7"@[1] != "f2"@[1]);
            assert("f7"@[1] != "f3"@[1]);
            assert("f7"@[1] != "f4"@[1]);
            assert("f7"@[1] != "f5"@[1]);
            assert("f7"@[1] != "f6"@[1]);
            assert(key_from_token("f7"@) == Some(Key::F7));
        },
        Key::F8 => {
            reveal_strlit("F8");
            assert(ascii_lower(key_name(k)) =~= "f8"@);
            assert forall|i: int| 0 <= i < key_name(k).len() implies '\0' <= #[trigger] key_name(k)[i] <= '\u{7f}' by {
                assert(i == 0 || i == 1);
            }
            assert("f8"@[1] != "f1"@[1]);
            assert("f8"@[1] != "f2"@[1]);
            assert("f8"@[1] != "f3"@[1]);
            assert("f8"@[1] != "f4"@[1]);
            assert("f8"@[1] != "f5"@[1]);
            assert("f8"@[1] != "f6"@[1]);
            assert("f8"@[1] != "f7"@[1]);
            assert(key_from_token("f8"@) == Some(Key::F8));
        },
        Key::F9 => {
            reveal_strlit("F9");
            assert(ascii_lower(key_name(k)) =~= "f9"@);
            assert forall|i: int| 0 <= i < key_name(k).len() implies '\0' <= #[trigger] key_name(k)[i] <= '\u{7f}' by {
                assert(i == 0 || i == 1);
            }
            assert("f9"@[1] != "f1"@[1]);
            assert("f9"@[1] != "f2"@[1]);
            assert("f9"@[1] != "f3"@[1]);
            assert("f9"@[1] != "f4"@[1]);
            assert("f9"@[1] != "f5"@[1]);
            assert("f9"@[1] != "f6"@[1]);
            assert("f9"@[1] != "f7"@[1]);
            assert("f9"@[1] != "f8"@[1]);
            assert(key_from_token("f9"@) == Some(Key::F9));
        },
        Key::F10 => {
            reveal_strlit("F10");
            assert(ascii_lower(key_name(k)) =~= "f10"@);
            assert forall|i: int| 0 <= i < key_name(k).len() implies '\0' <= #[trigger] key_name(k)[i] <= '\u{7f}' by {
                assert(i == 0 || i == 1 || i == 2);
            }
            assert(key_from_token("f10"@) == Some(Key::F10));
        },
        Key::F11 => {
            reveal_strlit("F11");
            assert(ascii_lower(key_name(k)) =~= "f11"@);
            assert forall|i: int| 0 <= i < key_name(k).len() implies '\0' <= #[trigger] key_name(k)[i] <= '\u{7f}' by {
                assert(i == 0 || i == 1 || i == 2);
            }
            assert("f11"@[2] != "f10"@[2]);
            assert(key_from_token("f11"@) == Some(Key::F11));
        },
        Key::F12 => {
            reveal_strlit("F12");
            assert(ascii_lower(key_name(k)) =~= "f12"@);
            assert forall|i: int| 0 <= i < key_name(k).len() implies '\0' <= #[trigger] key_name(k)[i] <= '\u{7f}' by {
                assert(i == 0 || i == 1 || i == 2);
            }
            assert("f12"@[2] != "f10"@[2]);
            assert("f12"@[2] != "f11"@[2]);
            assert(key_from_token("f12"@) == Some(Key::F12));
        },
        Key::Enter => {
            reveal_strlit("Enter");
            assert(ascii_lower(key_name(k)) =~= "enter"@);
            assert forall|i: int| 0 <= i < key_name(k).len() implies '\0' <= #[trigger] key_name(k)[i] <= '\u{7f}' by {
                assert(i == 0 || i == 1 || i == 2 || i == 3 || i == 4);
            }
            assert(key_from_token("enter"@) == Some(Key::Enter));
        },
        Key::Space => {
            reveal_strlit("Space");
            assert(ascii_lower(key_name(k)) =~= "space"@);
            assert forall|i: int| 0 <= i < key_name(k).len() implies '\0' <= #[trigger] key_name(k)[i] <= '\u{7f}' by {
                assert(i == 0 || i == 1 || i == 2 || i == 3 || i == 4);
            }
            assert("space"@[0] != "enter"@[0]);
            assert(key_from_token("space"@) == Some(Key::Space));
        },
        Key::Tab => {
            reveal_strlit("Tab");
            assert(ascii_lower(key_name(k)) =~= "tab"@);
            assert forall|i: int| 0 <= i < key_name(k).len() implies '\0' <= #[trigger] key_name(k)[i] <= '\u{7f}' by {
                assert(i == 0 || i == 1 || i == 2);
            }
            assert("tab"@[0] != "f10"@[0]);
            assert("tab"@[0] != "f11"@[0]);
            assert("tab"@[0] != "f12"@[0]);
            assert(key_from_token("tab"@) == Some(Key::Tab));
        },
        Key::Escape => {
            reveal_strlit("Escape");
            assert(ascii_lower(key_name(k)) =~= "escape"@);
            assert forall|i: int| 0 <= i < key_name(k).len() implies '\0' <= #[trigger] key_name(k)[i] <= '\u{7f}' by {
                assert(i == 0 || i == 1 || i == 2 || i == 3 || i == 4 || i == 5);
            }
            assert("escape"@[0] != "return"@[0]);
            assert(key_from_token("escape"@) == Some(Key::Escape));
        },
        Key::Backspace => {
            reveal_strlit("Backspace");
            assert(ascii_lower(key_name(k)) =~= "backspace"@);
            assert forall|i: int| 0 <= i < key_name(k).len() implies '\0' <= #[trigger] key_name(k)[i] <= '\u{7f}' by {
                assert(i == 0 || i == 1 || i == 2 || i == 3 || i == 4 || i == 5 || i == 6 || i == 7 || i == 8);
            }
            assert(key_from_token("backspace"@) == Some(Key::Backspace));
        },
        Key::Delete => {
            reveal_strlit("Delete");
            assert(ascii_lower(key_name(k)) =~= "delete"@);
            assert forall|i: int| 0 <= i < key_name(k).len() implies '\0' <= #[trigger] key_name(k)[i] <= '\u{7f}' by {
                assert(i == 0 || i == 1 || i == 2 || i == 3 || i == 4 || i == 5);
            }
            assert("delete"@[0] != "return"@[0]);
            assert("delete"@[0] != "escape"@[0]);
            assert(key_from_token("delete"@) == Some(Key::Delete));
        },
        Key::Home => {
            reveal_strlit("Home");
            assert(ascii_lower(key_name(k)) =~= "home"@);
            assert forall|i: int| 0 <= i < key_name(k).len() implies '\0' <= #[trigger] key_name(k)[i] <= '\u{7f}' by {
                assert(i == 0 || i == 1 || i == 2 || i == 3);
            }
            assert(key_from_token("home"@) == Some(Key::Home));
        },
        Key::End => {
            reveal_strlit("End");
            assert(ascii_lower(key_name(k)) =~= "end"@);
            assert forall|i: int| 0 <= i < key_name(k).len() implies '\0' <= #[trigger] key_name(k)[i] <= '\u{7f}' by {
                assert(i == 0 || i == 1 || i == 2);
            }
            assert("end"@[0] != "f10"@[0]);
            assert("end"@[0] != "f11"@[0]);
            assert("end"@[0] != "f12"@[0]);
            assert("end"@[0] != "tab"@[0]);
            assert("end"@[1] != "esc"@[1]);
            assert("end"@[0] != "del"@[0]);
            assert(key_from_token("end"@) == Some(Key::End));
        },
        Key::PageUp => {
            reveal_strlit("PageUp");
            assert(ascii_lower(key_name(k)) =~= "pageup"@);
            assert forall|i: int| 0 <= i < key_name(k).len() implies '\0' <= #[trigger] key_name(k)[i] <= '\u{7f}' by {
                assert(i == 0 || i == 1 || i == 2 || i == 3 || i == 4 || i == 5);
            }
            assert("pageup"@[0] != "return"@[0]);
            assert("pageup"@[0] != "escape"@[0]);
            assert("pageup"@[0] != "delete"@[0]);
            assert(key_from_token("pageup"@) == Some(Key::PageUp));
        },
        Key::PageDown => {
            reveal_strlit("PageDown");
            assert(ascii_lower(key_name(k)) =~= "pagedown"@);
            assert forall|i: int| 0 <= i < key_name(k).len() implies '\0' <= #[trigger] key_name(k)[i] <= '\u{7f}' by {
                assert(i == 0 || i == 1 || i == 2 || i == 3 || i == 4 || i == 5 || i == 6 || i == 7);
            }
            assert(key_from_token("pagedown"@) == Some(Key::PageDown));
        },
        Key::ArrowUp => {
            reveal_strlit("Up");
            assert(ascii_lower(key_name(k)) =~= "up"@);
            assert forall|i: int| 0 <= i < key_name(k).len() implies '\0' <= #[trigger] key_name(k)[i] <= '\u{7f}' by {
                assert(i == 0 || i == 1);
            }
            assert("up"@[0] != "f1"@[0]);
            assert("up"@[0] != "f2"@[0]);
            assert("up"@[0] != "f3"@[0]);
            assert("up"@[0] != "f4"@[0]);
            assert("up"@[0] != "f5"@[0]);
            assert("up"@[0] != "f6"@[0]);
            assert("up"@[0] != "f7"@[0]);
            assert("up"@[0] != "f8"@[0]);
            assert("up"@[0] != "f9"@[0]);
            assert(key_from_token("up"@) == Some(Key::ArrowUp));
        },
        Key::ArrowDown => {
            reveal_strlit("Down");
            assert(ascii_lower(key_name(k)) =~= "down"@);
            assert forall|i: int| 0 <= i < key_name(k).len() implies '\0' <= #[trigger] key_name(k)[i] <= '\u{7f}' by {
                assert(i == 0 || i == 1 || i == 2 || i == 3);
            }
            assert("down"@[0] != "home"@[0]);
            assert("down"@[0] != "pgup"@[0]);
            assert(key_from_token("down"@) == Some(Key::ArrowDown));
        },
        Key::ArrowLeft => {
            reveal_strlit("Left");
            assert(ascii_lower(key_name(k)) =~= "left"@);
            assert forall|i: int| 0 <= i < key_name(k).len() implies '\0' <= #[trigger] key_name(k)[i] <= '\u{7f}' by {
                assert(i == 0 || i == 1 || i == 2 || i == 3);
            }
            assert("left"@[0] != "home"@[0]);
            assert("left"@[0] != "pgup"@[0]);
            assert("left"@[0] != "down"@[0]);
            assert(key_from_token("left"@) == Some(Key::ArrowLeft));
        },
        Key::ArrowRight => {
            reveal_strlit("Right");
            assert(ascii_lower(key_name(k)) =~= "right"@);
            assert forall|i: int| 0 <= i < key_name(k).len() implies '\0' <= #[trigger] key_name(k)[i] <= '\u{7f}' by {
                assert(i == 0 || i == 1 || i == 2 || i == 3 || i == 4);
            }
            assert("right"@[0] != "enter"@[0]);
            assert("right"@[0] != "space"@[0]);
            assert(key_from_token("right"@) == Some(Key::ArrowRight));
        },
        Key::Minus => {
            reveal_strlit("Minus");
            assert(ascii_lower(key_name(k)) =~= "minus"@);
            assert forall|i: int| 0 <= i < key_name(k).len() implies '\0' <= #[trigger] key_name(k)[i] <= '\u{7f}' by {
                assert(i == 0 || i == 1 || i == 2 || i == 3 || i == 4);
            }
            assert("minus"@[0] != "enter"@[0]);
            assert("minus"@[0] != "space"@[0]);
            assert("minus"@[0] != "right"@[0]);
            assert(key_from_token("minus"@) == Some(Key::Minus));
        },
        _ => {
            assert(false);
        },
    }
}

proof fn lemma_no_plus_prefix(t: Seq<char>)
    requires
        t.len() > 0,
        !t.contains('+'),
    ensures
        !t.drop_last().contains('+'),
        t.last() != '+',
{
    if t.drop_last().contains('+') {
        let i = choose|i: int| 0 <= i < t.drop_last().len() && t.drop_last()[i] == '+';
        assert(t[i] == '+');
    }
    assert(t[t.len() - 1] == t.last());
}

/// Appending text with no `+` extends the last token.
proof fn lemma_split_tail(p: Seq<char>, t: Seq<char>)
    requires
        !t.contains('+'),
    ensures
        split_plus(p + t) == split_plus(p).update(split_plus(p).len() - 1, split_plus(p).last() + t),
    decreases t.len(),
{
    lemma_split_nonempty(p);
    let sp = split_plus(p);
    if t.len() == 0 {
        assert(p + t =~= p);
        assert(sp.last() + t =~= sp.last());
        assert(sp.update(sp.len() - 1, sp.last() + t) =~= sp);
    } else {
        let t2 = t.drop_last();
        lemma_no_plus_prefix(t);
        lemma_split_tail(p, t2);
        assert((p + t).drop_last() =~= p + t2);
        assert((p + t).last() == t.last());
        assert((sp.last() + t2).push(t.last()) =~= sp.last() + t);
        assert(split_plus(p + t) =~= sp.update(sp.len() - 1, sp.last() + t));
    }
}

/// One held modifier's text adds its word as a token, and a new empty last token.
proof fn lemma_split_modifier(p: Seq<char>, toks: Seq<Seq<char>>, held: bool, w: Seq<char>)
    requires
        split_plus(p) == toks.push(Seq::<char>::empty()),
        !w.contains('+'),
    ensures
        split_plus(p + modifier_text(held, w.push('+'))) == (if held {
            toks.push(w)
        } else {
            toks
        }).push(Seq::<char>::empty()),
{
    if held {
        lemma_split_tail(p, w);
        assert(p + w.push('+') =~= (p + w).push('+'));
        assert((p + w).push('+').drop_last() =~= p + w);
        assert(Seq::<char>::empty() + w =~= w);
        assert(toks.push(Seq::<char>::empty()).update(toks.len() as int, w) =~= toks.push(w));
    } else {
        assert(p + modifier_text(held, w.push('+')) =~= p);
    }
}

/// Scanning one more held modifier's word.
proof fn lemma_scan_modifier(toks: Seq<Seq<char>>, m: Modifiers, held: bool, w: Seq<char>, m2: Modifiers)
    requires
        scan_modifiers(toks) == Ok::<Modifiers, Seq<char>>(m),
        held ==> add_modifier(m, unicode_lower(w)) == Some(m2),
        !held ==> m2 == m,
    ensures
        scan_modifiers(if held {
            toks.push(w)
        } else {
            toks
        }) == Ok::<Modifiers, Seq<char>>(m2),
{
    if held {
        assert(toks.push(w).drop_last() =~= toks);
    }
}

/// The display form of a shortcut parses back to that shortcut, for every key
/// whose display name is one of its tokens; so parsing then displaying gives
/// a canonical form, which displays and parses to itself.
pub proof fn display_round_trip(s: KeyboardShortcut)
    requires
        name_is_token(s.key),
    ensures
        parse_shortcut(display_of(s)) == ShortcutParse::Parsed(s),
{
    reveal_strlit("Ctrl+");
    reveal_strlit("Alt+");
    reveal_strlit("Shift+");
    reveal_strlit("Cmd+");
    reveal_strlit("ctrl");
    reveal_strlit("control");
    reveal_strlit("alt");
    reveal_strlit("shift");
    reveal_strlit("cmd");
    reveal_strlit("meta");
    reveal_strlit("super");
    let m = s.modifiers;
    let cw = seq!['C', 't', 'r', 'l'];
    let aw = seq!['A', 'l', 't'];
    let sw = seq!['S', 'h', 'i', 'f', 't'];
    let mw = seq!['C', 'm', 'd'];
    assert("Ctrl+"@ =~= cw.push('+'));
    assert("Alt+"@ =~= aw.push('+'));
    assert("Shift+"@ =~= sw.push('+'));
    assert("Cmd+"@ =~= mw.push('+'));
    assert forall|i: int| 0 <= i < cw.len() implies '\0' <= #[trigger] cw[i] <= '\u{7f}' by {
        assert(i == 0 || i == 1 || i == 2 || i == 3);
    }
    assert forall|i: int| 0 <= i < aw.len() implies '\0' <= #[trigger] aw[i] <= '\u{7f}' by {
        assert(i == 0 || i == 1 || i == 2);
    }
    assert forall|i: int| 0 <= i < sw.len() implies '\0' <= #[trigger] sw[i] <= '\u{7f}' by {
        assert(i == 0 || i == 1 || i == 2 || i == 3 || i == 4);
    }
    assert forall|i: int| 0 <= i < mw.len() implies '\0' <= #[trigger] mw[i] <= '\u{7f}' by {
        assert(i == 0 || i == 1 || i == 2);
    }
    assert(ascii_lower(cw) =~= "ctrl"@);
    assert(ascii_lower(aw) =~= "alt"@);
    assert(ascii_lower(sw) =~= "shift"@);
    assert(ascii_lower(mw) =~= "cmd"@);
    assert(!cw.contains('+'));
    assert(!aw.contains('+'));
    assert(!sw.contains('+'));
    assert(!mw.contains('+'));
    assert("cmd"@[0] != "alt"@[0]);

    let e = Seq::<char>::empty();
    let t0 = Seq::<Seq<char>>::empty();
    assert(split_plus(e) =~= t0.push(e));
    let after_ctrl = e + modifier_text(m.ctrl, "Ctrl+"@);
    lemma_split_modifier(e, t0, m.ctrl, cw);
    let t1 = if m.ctrl { t0.push(cw) } else { t0 };
    let m1 = Modifiers { ctrl: m.ctrl, ..no_modifiers() };
    lemma_scan_modifier(t0, no_modifiers(), m.ctrl, cw, m1);

    let after_alt = after_ctrl + modifier_text(m.alt, "Alt+"@);
    lemma_split_modifier(after_ctrl, t1, m.alt, aw);
    let t2 = if m.alt { t1.push(aw) } else { t1 };
    let m2 = Modifiers { alt: m.alt, ..m1 };
    lemma_scan_modifier(t1, m1, m.alt, aw, m2);

    let after_shift = after_alt + modifier_text(m.shift, "Shift+"@);
    lemma_split_modifier(after_alt, t2, m.shift, sw);
    let t3 = if m.shift { t2.push(sw) } else { t2 };
    let m3 = Modifiers { shift: m.shift, ..m2 };
    lemma_scan_modifier(t2, m2, m.shift, sw, m3);

    let after_cmd = after_shift + modifier_text(m.command, "Cmd+"@);
    lemma_split_modifier(after_shift, t3, m.command, mw);
    let t4 = if m.command { t3.push(mw) } else { t3 };
    let m4 = Modifiers { command: m.command, ..m3 };
    lemma_scan_modifier(t3, m3, m.command, mw, m4);
    assert(m4 == m);

    let name = key_name(s.key);
    lemma_key_name_parses(s.key);
    lemma_split_tail(after_cmd, name);
    assert(e + name =~= name);
    assert(t4.push(e).update(t4.len() as int, name) =~= t4.push(name));
    assert(modifier_text(m.ctrl, "Ctrl+"@) =~= after_ctrl);
    assert(display_of(s) =~= after_cmd + name);
    assert(split_plus(display_of(s)).drop_last() =~= t4);
    assert(display_of(s).len() > 0);
}

/// The answers of `just_pressed` for one shortcut over consecutive frames,
/// given whether each frame satisfies it, and the table after the last frame.
pub open spec fn press_answers(
    m: Map<KeyboardShortcut, bool>,
    s: KeyboardShortcut,
    frames: Seq<bool>,
) -> (Seq<bool>, Map<KeyboardShortcut, bool>)
    decreases frames.len(),
{
    if frames.len() == 0 {
        (Seq::empty(), m)
    } else {
        let (out, m1) = press_answers(m, s, frames.drop_last());
        let sat = frames.last();
        (out.push(sat && !m1[s]), m1.insert(s, sat))
    }
}

/// Over consecutive frames, a shortcut is reported just pressed exactly on the
/// frames that satisfy it and follow one that did not (for the first frame:
/// when the table does not record it as pressed). Holding it down reports it
/// once; each release and press reports it again.
pub proof fn just_pressed_on_rising_edges(m: Map<KeyboardShortcut, bool>, s: KeyboardShortcut, frames: Seq<bool>)
    ensures
        press_answers(m, s, frames).0.len() == frames.len(),
        forall|t: int|
            0 <= t < frames.len() ==> press_answers(m, s, frames).0[t] == (frames[t] && !(if t == 0 {
                m[s]
            } else {
                frames[t - 1]
            })),
        press_answers(m, s, frames).1[s] == if frames.len() == 0 {
            m[s]
        } else {
            frames.last()
        },
    decreases frames.len(),
{
    if frames.len() > 0 {
        let f2 = frames.drop_last();
        just_pressed_on_rising_edges(m, s, f2);
        let (out, m1) = press_answers(m, s, f2);
        assert forall|t: int| 0 <= t < frames.len() implies press_answers(m, s, frames).0[t] == (frames[t] && !(if t == 0 {
            m[s]
        } else {
            frames[t - 1]
        })) by {
            if t < f2.len() {
                assert(f2[t] == frames[t]);
                if t > 0 {
                    assert(f2[t - 1] == frames[t - 1]);
                }
            } else if t > 0 {
                assert(f2.last() == frames[t - 1]);
            }
        }
    }
}

/// A modifier that a token can name.
pub enum ModifierKind {
    Ctrl,
    Alt,
    Shift,
    Command,
}

/// Whether a lower-case token names the modifier.
pub open spec fn names_modifier(w: Seq<char>, kind: ModifierKind) -> bool {
    match kind {
        ModifierKind::Ctrl => w == "ctrl"@ || w == "control"@,
        ModifierKind::Alt => w == "alt"@,
        ModifierKind::Shift => w == "shift"@,
        ModifierKind::Command => w == "cmd"@ || w == "meta"@ || w == "super"@,
    }
}

/// Whether some token, lower-cased, names the modifier.
pub open spec fn some_token(toks: Seq<Seq<char>>, kind: ModifierKind) -> bool {
    exists|i: int| 0 <= i < toks.len() && names_modifier(unicode_lower(#[trigger] toks[i]), kind)
}

proof fn lemma_some_token_push(toks: Seq<Seq<char>>, kind: ModifierKind)
    requires
        toks.len() > 0,
    ensures
        some_token(toks, kind) == (some_token(toks.drop_last(), kind) || names_modifier(
            unicode_lower(toks.last()),
            kind,
        )),
{
    let pre = toks.drop_last();
    if some_token(toks, kind) {
        let i = choose|i: int| 0 <= i < toks.len() && names_modifier(unicode_lower(#[trigger] toks[i]), kind);
        if i < pre.len() {
            assert(pre[i] == toks[i]);
        }
    }
    if some_token(pre, kind) {
        let i = choose|i: int| 0 <= i < pre.len() && names_modifier(unicode_lower(#[trigger] pre[i]), kind);
        assert(toks[i] == pre[i]);
    }
    assert(toks[toks.len() - 1] == toks.last());
}

/// The modifiers that a list of valid modifier tokens sets are exactly those
/// that some token names, each once whatever the order.
proof fn lemma_scan_names(toks: Seq<Seq<char>>, m: Modifiers)
    requires
        scan_modifiers(toks) == Ok::<Modifiers, Seq<char>>(m),
    ensures
        m.ctrl == some_token(toks, ModifierKind::Ctrl),
        m.alt == some_token(toks, ModifierKind::Alt),
        m.shift == some_token(toks, ModifierKind::Shift),
        m.command == some_token(toks, ModifierKind::Command),
    decreases toks.len(),
{
    reveal_strlit("ctrl");
    reveal_strlit("control");
    reveal_strlit("alt");
    reveal_strlit("shift");
    reveal_strlit("cmd");
    reveal_strlit("meta");
    reveal_strlit("super");
    assert("meta"@[0] != "ctrl"@[0]);
    assert("super"@[1] != "shift"@[1]);
    assert("cmd"@[0] != "alt"@[0]);
    assert("ctrl"@.len() == 4 && "control"@.len() == 7 && "alt"@.len() == 3 && "shift"@.len() == 5);
    assert("cmd"@.len() == 3 && "meta"@.len() == 4 && "super"@.len() == 5);
    if toks.len() > 0 {
        let pre = toks.drop_last();
        match scan_modifiers(pre) {
            Ok(m0) => {
                lemma_scan_names(pre, m0);
            },
            Err(_) => {},
        }
        lemma_some_token_push(toks, ModifierKind::Ctrl);
        lemma_some_token_push(toks, ModifierKind::Alt);
        lemma_some_token_push(toks, ModifierKind::Shift);
        lemma_some_token_push(toks, ModifierKind::Command);
    }
}

/// Parsing then displaying gives the canonical form: "Ctrl+" if some token
/// names Ctrl, then "Alt+", "Shift+" and "Cmd+" likewise, each at most once
/// and in that order whatever the order and case of the tokens, then the
/// key's name. For a key whose name is one of its tokens, that form parses
/// back to the same shortcut.
pub proof fn parse_then_display(t: Seq<char>, s: KeyboardShortcut)
    requires
        parse_shortcut(t) == ShortcutParse::Parsed(s),
    ensures
        ({
            let toks = split_plus(t).drop_last();
            display_of(s) == modifier_text(some_token(toks, ModifierKind::Ctrl), "Ctrl+"@)
                + modifier_text(some_token(toks, ModifierKind::Alt), "Alt+"@)
                + modifier_text(some_token(toks, ModifierKind::Shift), "Shift+"@)
                + modifier_text(some_token(toks, ModifierKind::Command), "Cmd+"@)
                + key_name(s.key)
        }),
        key_from_token(unicode_lower(split_plus(t).last())) == Some(s.key),
        name_is_token(s.key) ==> parse_shortcut(display_of(s)) == ShortcutParse::Parsed(s),
{
    let toks = split_plus(t).drop_last();
    lemma_scan_names(toks, s.modifiers);
    if name_is_token(s.key) {
        display_round_trip(s);
    }
}

} // verus!
