//! Decoding of raw key events into semantic input.
//!
//! The embedding program polls its terminal driver, for at most
//! [`POLL_TIMEOUT_MS`] milliseconds, and hands what it got to
//! [`NyanInput::get_input`].

use vstd::prelude::*;
use vstd::string::StringExecFns;
use crate::text::{decimal, decimal_digits, with_char};

verus! {

/// How long one poll for a key event may wait, in milliseconds.
pub const POLL_TIMEOUT_MS: u64 = 16;

/// A key of the keyboard: one of the 26 letters, or any other character.
#[derive(Clone, Copy, Debug, PartialEq, Eq, Structural)]
pub enum NyanKey {
    A,
    B,
    C,
    D,
    E,
    F,
    G,
    H,
    I,
    J,
    K,
    L,
    M,
    N,
    O,
    P,
    Q,
    R,
    S,
    T,
    U,
    V,
    W,
    X,
    Y,
    Z,
    /// A character that is no letter of the ASCII alphabet.
    OtherKey(char),
}

/// A semantic keyboard input.
#[derive(Debug, PartialEq, Eq)]
pub enum NyanInput {
    /// An input made while Shift was held. The inner input is always a [`NyanInput::Key`].
    Shift(Box<NyanInput>),
    /// A key pressed while Ctrl was held.
    Ctrl(NyanKey),
    /// A key pressed while Alt was held.
    Alt(NyanKey),
    UpAllow,
    DownAllow,
    LeftAllow,
    RightAllow,
    Enter,
    BackSpace,
    Tab,
    Esc,
    End,
    CapsLock,
    Insert,
    Home,
    PageUp,
    PageDown,
    Delete,
    /// A function key, by its number.
    FunctionKey(u8),
    /// A key pressed without a modifier.
    Key(NyanKey),
    /// No input.
    Null,
}

/// The code of a raw key event, as the terminal driver reports it.
#[derive(Clone, Copy, Debug, PartialEq, Eq, Structural)]
pub enum RawKeyCode {
    Char(char),
    Left,
    Right,
    Up,
    Down,
    Enter,
    Backspace,
    Tab,
    Esc,
    End,
    Insert,
    CapsLock,
    Home,
    PageUp,
    PageDown,
    Delete,
    F(u8),
    Null,
    /// Any key code that the decoder does not know.
    Unrecognized,
}

/// A raw key event: the key code and which modifiers were held.
#[derive(Clone, Copy, Debug, PartialEq, Eq, Structural)]
pub struct RawKeyEvent {
    pub code: RawKeyCode,
    pub shift: bool,
    pub control: bool,
    pub alt: bool,
}

/// The letter with the given position in the alphabet, counted from zero.
pub open spec fn letter(i: int) -> NyanKey
    recommends
        0 <= i < 26,
{
    if i == 0 {
        NyanKey::A
    } else if i == 1 {
        NyanKey::B
    } else if i == 2 {
        NyanKey::C
    } else if i == 3 {
        NyanKey::D
    } else if i == 4 {
        NyanKey::E
    } else if i == 5 {
        NyanKey::F
    } else if i == 6 {
        NyanKey::G
    } else if i == 7 {
        NyanKey::H
    } else if i == 8 {
        NyanKey::I
    } else if i == 9 {
        NyanKey::J
    } else if i == 10 {
        NyanKey::K
    } else if i == 11 {
        NyanKey::L
    } else if i == 12 {
        NyanKey::M
    } else if i == 13 {
        NyanKey::N
    } else if i == 14 {
        NyanKey::O
    } else if i == 15 {
        NyanKey::P
    } else if i == 16 {
        NyanKey::Q
    } else if i == 17 {
        NyanKey::R
    } else if i == 18 {
        NyanKey::S
    } else if i == 19 {
        NyanKey::T
    } else if i == 20 {
        NyanKey::U
    } else if i == 21 {
        NyanKey::V
    } else if i == 22 {
        NyanKey::W
    } else if i == 23 {
        NyanKey::X
    } else if i == 24 {
        NyanKey::Y
    } else {
        NyanKey::Z
    }
}

/// The lower-case form of an ASCII capital; every other character is itself.
pub open spec fn ascii_lower(c: char) -> char {
    if 'A' <= c && c <= 'Z' {
        ((c as u8 + 32) as u8) as char
    } else {
        c
    }
}

/// The key that a character stands for: a letter regardless of case, or the
/// character itself.
pub open spec fn key_of(c: char) -> NyanKey {
    if 'a' <= c && c <= 'z' {
        letter(c as int - 'a' as int)
    } else if 'A' <= c && c <= 'Z' {
        letter(c as int - 'A' as int)
    } else {
        NyanKey::OtherKey(c)
    }
}

/// The input that a key makes under the modifiers of `ev`. At most one
/// modifier is applied: Ctrl before Alt before Shift.
pub open spec fn modified(key: NyanKey, ev: RawKeyEvent) -> NyanInput {
    if ev.control {
        NyanInput::Ctrl(key)
    } else if ev.alt {
        NyanInput::Alt(key)
    } else if ev.shift {
        NyanInput::Shift(Box::new(NyanInput::Key(key)))
    } else {
        NyanInput::Key(key)
    }
}

/// The semantic input that a raw key event decodes to.
pub open spec fn decoded(ev: RawKeyEvent) -> NyanInput {
    match ev.code {
        RawKeyCode::Char(ch) => modified(key_of(ch), ev),
        RawKeyCode::Left => NyanInput::LeftAllow,
        RawKeyCode::Right => NyanInput::RightAllow,
        RawKeyCode::Up => NyanInput::UpAllow,
        RawKeyCode::Down => NyanInput::DownAllow,
        RawKeyCode::Enter => NyanInput::Enter,
        RawKeyCode::Backspace => NyanInput::BackSpace,
        RawKeyCode::Tab => NyanInput::Tab,
        RawKeyCode::Esc => NyanInput::Esc,
        RawKeyCode::End => NyanInput::End,
        RawKeyCode::Insert => NyanInput::Insert,
        RawKeyCode::CapsLock => NyanInput::CapsLock,
        RawKeyCode::Home => NyanInput::Home,
        RawKeyCode::PageUp => NyanInput::PageUp,
        RawKeyCode::PageDown => NyanInput::PageDown,
        RawKeyCode::Delete => NyanInput::Delete,
        RawKeyCode::F(n) => NyanInput::FunctionKey(n),
        RawKeyCode::Null => NyanInput::Null,
        RawKeyCode::Unrecognized => NyanInput::Null,
    }
}

/// The result of one poll: no event means no input.
pub open spec fn polled_input(polled: Option<RawKeyEvent>) -> NyanInput {
    match polled {
        Some(ev) => decoded(ev),
        None => NyanInput::Null,
    }
}

/// `char::to_ascii_lowercase` of the standard library: the capitals `A` to `Z`
/// are mapped to `a` to `z`, every other character is returned unchanged.
#[verifier::external_body]
fn to_ascii_lowercase(ch: char) -> (low: char)
    ensures
        low == ascii_lower(ch),
{
    ch.to_ascii_lowercase()
}

impl NyanKey {
    /// The character that a key is shown as: the capital of a letter, and
    /// the character of any other key.
    pub open spec fn symbol(self) -> char {
        match self {
            NyanKey::A => 'A',
            NyanKey::B => 'B',
            NyanKey::C => 'C',
            NyanKey::D => 'D',
            NyanKey::E => 'E',
            NyanKey::F => 'F',
            NyanKey::G => 'G',
            NyanKey::H => 'H',
            NyanKey::I => 'I',
            NyanKey::J => 'J',
            NyanKey::K => 'K',
            NyanKey::L => 'L',
            NyanKey::M => 'M',
            NyanKey::N => 'N',
            NyanKey::O => 'O',
            NyanKey::P => 'P',
            NyanKey::Q => 'Q',
            NyanKey::R => 'R',
            NyanKey::S => 'S',
            NyanKey::T => 'T',
            NyanKey::U => 'U',
            NyanKey::V => 'V',
            NyanKey::W => 'W',
            NyanKey::X => 'X',
            NyanKey::Y => 'Y',
            NyanKey::Z => 'Z',
            NyanKey::OtherKey(c) => c,
        }
    }

    /// The text that describes this key: a letter by its capital, any other
    /// key by its character in brackets.
    pub open spec fn described(self) -> Seq<char> {
        match self {
            NyanKey::OtherKey(c) => "NyanKey::("@.push(c) + ")"@,
            _ => "NyanKey::"@.push(self.symbol()),
        }
    }

    /// The character that this key is shown as.
    pub fn to_char(&self) -> (c: char)
        ensures
            c == self.symbol(),
    {
        match *self {
            NyanKey::A => 'A',
            NyanKey::B => 'B',
            NyanKey::C => 'C',
            NyanKey::D => 'D',
            NyanKey::E => 'E',
            NyanKey::F => 'F',
            NyanKey::G => 'G',
            NyanKey::H => 'H',
            NyanKey::I => 'I',
            NyanKey::J => 'J',
            NyanKey::K => 'K',
            NyanKey::L => 'L',
            NyanKey::M => 'M',
            NyanKey::N => 'N',
            NyanKey::O => 'O',
            NyanKey::P => 'P',
            NyanKey::Q => 'Q',
            NyanKey::R => 'R',
            NyanKey::S => 'S',
            NyanKey::T => 'T',
            NyanKey::U => 'U',
            NyanKey::V => 'V',
            NyanKey::W => 'W',
            NyanKey::X => 'X',
            NyanKey::Y => 'Y',
            NyanKey::Z => 'Z',
            NyanKey::OtherKey(c) => c,
        }
    }

    /// Describes this key, as in `NyanKey::A` or `NyanKey::(/)`.
    pub fn describe(&self) -> (text: String)
        ensures
            text@ == self.described(),
    {
        match *self {
            NyanKey::OtherKey(c) => with_char(String::from_str("NyanKey::("), c).concat(")"),
            _ => with_char(String::from_str("NyanKey::"), self.to_char()),
        }
    }

    /// The key that the character `ch` stands for.
    pub fn from_char(ch: char) -> (key: NyanKey)
        ensures
            key == key_of(ch),
    {
        match to_ascii_lowercase(ch) {
            'a' => NyanKey::A,
            'b' => NyanKey::B,
            'c' => NyanKey::C,
            'd' => NyanKey::D,
            'e' => NyanKey::E,
            'f' => NyanKey::F,
            'g' => NyanKey::G,
            'h' => NyanKey::H,
            'i' => NyanKey::I,
            'j' => NyanKey::J,
            'k' => NyanKey::K,
            'l' => NyanKey::L,
            'm' => NyanKey::M,
            'n' => NyanKey::N,
            'o' => NyanKey::O,
            'p' => NyanKey::P,
            'q' => NyanKey::Q,
            'r' => NyanKey::R,
            's' => NyanKey::S,
            't' => NyanKey::T,
            'u' => NyanKey::U,
            'v' => NyanKey::V,
            'w' => NyanKey::W,
            'x' => NyanKey::X,
            'y' => NyanKey::Y,
            'z' => NyanKey::Z,
            p => NyanKey::OtherKey(p),
        }
    }
}

impl Clone for NyanInput {
    fn clone(&self) -> (copy: NyanInput)
        ensures
            copy == *self,
        decreases *self,
    {
        match self {
            NyanInput::Shift(inner) => NyanInput::Shift(Box::new((**inner).clone())),
            NyanInput::Ctrl(key) => NyanInput::Ctrl(*key),
            NyanInput::Alt(key) => NyanInput::Alt(*key),
            NyanInput::UpAllow => NyanInput::UpAllow,
            NyanInput::DownAllow => NyanInput::DownAllow,
            NyanInput::LeftAllow => NyanInput::LeftAllow,
            NyanInput::RightAllow => NyanInput::RightAllow,
            NyanInput::Enter => NyanInput::Enter,
            NyanInput::BackSpace => NyanInput::BackSpace,
            NyanInput::Tab => NyanInput::Tab,
            NyanInput::Esc => NyanInput::Esc,
            NyanInput::End => NyanInput::End,
            NyanInput::CapsLock => NyanInput::CapsLock,
            NyanInput::Insert => NyanInput::Insert,
            NyanInput::Home => NyanInput::Home,
            NyanInput::PageUp => NyanInput::PageUp,
            NyanInput::PageDown => NyanInput::PageDown,
            NyanInput::Delete => NyanInput::Delete,
            NyanInput::FunctionKey(n) => NyanInput::FunctionKey(*n),
            NyanInput::Key(key) => NyanInput::Key(*key),
            NyanInput::Null => NyanInput::Null,
        }
    }
}

impl NyanInput {
    /// The text that describes this input: its name, and in brackets the
    /// description of what it carries.
    pub open spec fn described(self) -> Seq<char>
        decreases self,
    {
        match self {
            NyanInput::Alt(key) => "NyanInput::Alt("@ + key.described() + ")"@,
            NyanInput::Ctrl(key) => "NyanInput::Ctrl("@ + key.described() + ")"@,
            NyanInput::Shift(inner) => "NyanInput::Shift("@ + inner.described() + ")"@,
            NyanInput::UpAllow => "NyanInput::UpAllow"@,
            NyanInput::DownAllow => "NyanInput::DownAllow"@,
            NyanInput::RightAllow => "NyanInput::RightAllow"@,
            NyanInput::LeftAllow => "NyanInput::LeftAllow"@,
            NyanInput::Enter => "NyanInput::Enter"@,
            NyanInput::BackSpace => "NyanInput::BackSpace"@,
            NyanInput::Tab => "NyanInput::Tab"@,
            NyanInput::Esc => "NyanInput::Esc"@,
            NyanInput::End => "NyanInput::End"@,
            NyanInput::CapsLock => "NyanInput::CapsLock"@,
            NyanInput::Insert => "NyanInput::Insert"@,
            NyanInput::Home => "NyanInput::Home"@,
            NyanInput::PageUp => "NyanInput::PageUp"@,
            NyanInput::PageDown => "NyanInput::PageDown"@,
            NyanInput::Delete => "NyanInput::Delete"@,
            NyanInput::FunctionKey(n) => "NyanInput::FunctionKey(F"@ + decimal_digits(n as nat)
                + ")"@,
            NyanInput::Key(key) => "NyanInput::Key("@ + key.described() + ")"@,
            NyanInput::Null => "NyanInput::Null"@,
        }
    }

    /// Describes this input, as in `NyanInput::Ctrl(NyanKey::C)`.
    pub fn describe(&self) -> (text: String)
        ensures
            text@ == self.described(),
        decreases *self,
    {
        match self {
            NyanInput::Alt(key) => String::from_str("NyanInput::Alt(").concat(
                key.describe().as_str(),
            ).concat(")"),
            NyanInput::Ctrl(key) => String::from_str("NyanInput::Ctrl(").concat(
                key.describe().as_str(),
            ).concat(")"),
            NyanInput::Shift(inner) => String::from_str("NyanInput::Shift(").concat(
                inner.describe().as_str(),
            ).concat(")"),
            NyanInput::UpAllow => String::from_str("NyanInput::UpAllow"),
            NyanInput::DownAllow => String::from_str("NyanInput::DownAllow"),
            NyanInput::RightAllow => String::from_str("NyanInput::RightAllow"),
            NyanInput::LeftAllow => String::from_str("NyanInput::LeftAllow"),
            NyanInput::Enter => String::from_str("NyanInput::Enter"),
            NyanInput::BackSpace => String::from_str("NyanInput::BackSpace"),
            NyanInput::Tab => String::from_str("NyanInput::Tab"),
            NyanInput::Esc => String::from_str("NyanInput::Esc"),
            NyanInput::End => String::from_str("NyanInput::End"),
            NyanInput::CapsLock => String::from_str("NyanInput::CapsLock"),
            NyanInput::Insert => String::from_str("NyanInput::Insert"),
            NyanInput::Home => String::from_str("NyanInput::Home"),
            NyanInput::PageUp => String::from_str("NyanInput::PageUp"),
            NyanInput::PageDown => String::from_str("NyanInput::PageDown"),
            NyanInput::Delete => String::from_str("NyanInput::Delete"),
            NyanInput::FunctionKey(n) => String::from_str("NyanInput::FunctionKey(F").concat(
                decimal(*n as u64).as_str(),
            ).concat(")"),
            NyanInput::Key(key) => String::from_str("NyanInput::Key(").concat(
                key.describe().as_str(),
            ).concat(")"),
            NyanInput::Null => String::from_str("NyanInput::Null"),
        }
    }

    /// Whether the input is well formed: Shift wraps nothing but a plain key press.
    pub open spec fn wf(self) -> bool {
        match self {
            NyanInput::Shift(inner) => *inner is Key,
            _ => true,
        }
    }

    /// Decodes one raw key event.
    pub fn decode(ev: RawKeyEvent) -> (input: NyanInput)
        ensures
            input == decoded(ev),
            input.wf(),
    {
        match ev.code {
            RawKeyCode::Char(ch) => {
                let nyan_key = NyanKey::from_char(ch);
                if ev.control {
                    NyanInput::Ctrl(nyan_key)
                } else if ev.alt {
                    NyanInput::Alt(nyan_key)
                } else if ev.shift {
                    NyanInput::Shift(Box::new(NyanInput::Key(nyan_key)))
                } else {
                    NyanInput::Key(nyan_key)
                }
            },
            RawKeyCode::Left => NyanInput::LeftAllow,
            RawKeyCode::Right => NyanInput::RightAllow,
            RawKeyCode::Up => NyanInput::UpAllow,
            RawKeyCode::Down => NyanInput::DownAllow,
            RawKeyCode::Enter => NyanInput::Enter,
            RawKeyCode::Backspace => NyanInput::BackSpace,
            RawKeyCode::Tab => NyanInput::Tab,
            RawKeyCode::Esc => NyanInput::Esc,
            RawKeyCode::End => NyanInput::End,
            RawKeyCode::Insert => NyanInput::Insert,
            RawKeyCode::CapsLock => NyanInput::CapsLock,
            RawKeyCode::Home => NyanInput::Home,
            RawKeyCode::PageUp => NyanInput::PageUp,
            RawKeyCode::PageDown => NyanInput::PageDown,
            RawKeyCode::Delete => NyanInput::Delete,
            RawKeyCode::F(n) => NyanInput::FunctionKey(n),
            RawKeyCode::Null => NyanInput::Null,
            RawKeyCode::Unrecognized => NyanInput::Null,
        }
    }

    /// The input of one poll. `polled` is the key event that arrived within
    /// the timeout, or `None` where none did.
    pub fn get_input(polled: Option<RawKeyEvent>) -> (input: NyanInput)
        ensures
            input == polled_input(polled),
            input.wf(),
    {
        match polled {
            Some(ev) => NyanInput::decode(ev),
            None => NyanInput::Null,
        }
    }
}

/// Ctrl takes precedence: a character key with Ctrl held decodes to `Ctrl` of
/// its key, whatever the Shift and Alt modifiers are.
pub proof fn lemma_ctrl_precedence(ch: char, shift: bool, alt: bool)
    ensures
        decoded(RawKeyEvent { code: RawKeyCode::Char(ch), shift, control: true, alt })
            == NyanInput::Ctrl(key_of(ch)),
{
}

/// Without Ctrl, Alt takes precedence over Shift.
pub proof fn lemma_alt_precedence(ch: char, shift: bool)
    ensures
        decoded(RawKeyEvent { code: RawKeyCode::Char(ch), shift, control: false, alt: true })
            == NyanInput::Alt(key_of(ch)),
{
}

/// A letter key is the key of the character it is shown as, and the key of
/// a character that is no letter is shown as that character.
pub proof fn lemma_symbol_round_trip(key: NyanKey, ch: char)
    ensures
        !(key is OtherKey) ==> key_of(key.symbol()) == key,
        key_of(ch) is OtherKey ==> key_of(ch).symbol() == ch,
{
}

/// Every input that decoding yields is well formed, and a poll without an
/// event yields no input.
pub proof fn lemma_decoded_is_well_formed(ev: RawKeyEvent)
    ensures
        decoded(ev).wf(),
        polled_input(Some(ev)) == decoded(ev),
        polled_input(None) == NyanInput::Null,
{
}

/// Letters decode alike in both cases.
pub proof fn lemma_case_insensitive(ch: char)
    requires
        'A' <= ch && ch <= 'Z',
    ensures
        key_of(ch) == key_of(ascii_lower(ch)),
{
}

} // verus!
