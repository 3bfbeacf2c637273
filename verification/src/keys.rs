//! Stateless encoding of key events into the bytes a program attached to a
//! terminal expects to read.

use vstd::prelude::*;
use vstd::utf8::*;

verus! {

/// The key of a key event.
#[derive(Clone, Copy, Debug, PartialEq, Eq)]
pub enum KeyCode {
    Backspace,
    Enter,
    Left,
    Right,
    Up,
    Down,
    Home,
    End,
    PageUp,
    PageDown,
    Tab,
    BackTab,
    Delete,
    Insert,
    /// A function key, by its number.
    F(u8),
    /// A character key.
    Char(char),
    Null,
    Esc,
    CapsLock,
    ScrollLock,
    NumLock,
    PrintScreen,
    Pause,
    Menu,
    KeypadBegin,
    /// A media key; which one is of no interest to a terminal.
    Media,
    /// A modifier key reported on its own.
    Modifier,
}

/// Whether a key went down, is held, or went up.
#[derive(Clone, Copy, Debug, PartialEq, Eq)]
pub enum KeyEventKind {
    Press,
    Repeat,
    Release,
}

/// The modifier keys held during a key event.
#[derive(Clone, Copy, Debug, PartialEq, Eq)]
pub struct KeyModifiers {
    pub ctrl: bool,
    pub alt: bool,
    pub shift: bool,
}

/// One key event.
#[derive(Clone, Copy, Debug, PartialEq, Eq)]
pub struct KeyEvent {
    pub code: KeyCode,
    pub modifiers: KeyModifiers,
    pub kind: KeyEventKind,
}

/// The escape byte.
pub const ESC: u8 = 0x1b;

/// The control code that Ctrl together with `c` stands for, if any.
/// Letters count in either case.
pub open spec fn control_code(c: char) -> Option<u8> {
    if 'a' <= c <= 'z' {
        Some((c as u32 - 0x60) as u8)
    } else if 'A' <= c <= 'Z' {
        Some((c as u32 - 0x40) as u8)
    } else if c == '@' || c == '_' || c == ' ' {
        Some(0x00u8)
    } else if c == '[' {
        Some(0x1bu8)
    } else if c == '\\' {
        Some(0x1cu8)
    } else if c == ']' {
        Some(0x1du8)
    } else if c == '^' || c == '6' {
        Some(0x1eu8)
    } else {
        None
    }
}

/// The sequence of function key `n`; only the first twelve have one.
pub open spec fn function_key_bytes(n: u8) -> Option<Seq<u8>> {
    if n == 1 {
        Some(seq![ESC, 0x4fu8, 0x50u8])
    } else if n == 2 {
        Some(seq![ESC, 0x4fu8, 0x51u8])
    } else if n == 3 {
        Some(seq![ESC, 0x4fu8, 0x52u8])
    } else if n == 4 {
        Some(seq![ESC, 0x4fu8, 0x53u8])
    } else if n == 5 {
        Some(seq![ESC, 0x5bu8, 0x31u8, 0x35u8, 0x7eu8])
    } else if n == 6 {
        Some(seq![ESC, 0x5bu8, 0x31u8, 0x37u8, 0x7eu8])
    } else if n == 7 {
        Some(seq![ESC, 0x5bu8, 0x31u8, 0x38u8, 0x7eu8])
    } else if n == 8 {
        Some(seq![ESC, 0x5bu8, 0x31u8, 0x39u8, 0x7eu8])
    } else if n == 9 {
        Some(seq![ESC, 0x5bu8, 0x32u8, 0x30u8, 0x7eu8])
    } else if n == 10 {
        Some(seq![ESC, 0x5bu8, 0x32u8, 0x31u8, 0x7eu8])
    } else if n == 11 {
        Some(seq![ESC, 0x5bu8, 0x32u8, 0x33u8, 0x7eu8])
    } else if n == 12 {
        Some(seq![ESC, 0x5bu8, 0x32u8, 0x34u8, 0x7eu8])
    } else {
        None
    }
}

/// The byte sequence of a key that is no character key, if it has one.
pub open spec fn named_key_bytes(code: KeyCode) -> Option<Seq<u8>> {
    match code {
        KeyCode::Enter => Some(seq![0x0du8]),
        KeyCode::Backspace => Some(seq![0x7fu8]),
        KeyCode::Tab => Some(seq![0x09u8]),
        KeyCode::Esc => Some(seq![ESC]),
        KeyCode::BackTab => Some(seq![ESC, 0x5bu8, 0x5au8]),
        KeyCode::Left => Some(seq![ESC, 0x5bu8, 0x44u8]),
        KeyCode::Right => Some(seq![ESC, 0x5bu8, 0x43u8]),
        KeyCode::Up => Some(seq![ESC, 0x5bu8, 0x41u8]),
        KeyCode::Down => Some(seq![ESC, 0x5bu8, 0x42u8]),
        KeyCode::Home => Some(seq![ESC, 0x5bu8, 0x48u8]),
        KeyCode::End => Some(seq![ESC, 0x5bu8, 0x46u8]),
        KeyCode::PageUp => Some(seq![ESC, 0x5bu8, 0x35u8, 0x7eu8]),
        KeyCode::PageDown => Some(seq![ESC, 0x5bu8, 0x36u8, 0x7eu8]),
        KeyCode::Delete => Some(seq![ESC, 0x5bu8, 0x33u8, 0x7eu8]),
        KeyCode::Insert => Some(seq![ESC, 0x5bu8, 0x32u8, 0x7eu8]),
        KeyCode::F(n) => function_key_bytes(n),
        _ => None,
    }
}

/// What a character key sends: its control code under Ctrl, else its UTF-8
/// encoding; under Alt either is preceded by `ESC`.
pub open spec fn char_key_bytes(c: char, modifiers: KeyModifiers) -> Option<Seq<u8>> {
    let prefix = if modifiers.alt {
        seq![ESC]
    } else {
        Seq::<u8>::empty()
    };
    if modifiers.ctrl {
        match control_code(c) {
            Some(b) => Some(prefix + seq![b]),
            None => None,
        }
    } else {
        Some(prefix + encode_scalar(c as u32))
    }
}

/// The bytes that `key` sends to the shell; `None` where it sends nothing.
pub open spec fn key_bytes(key: KeyEvent) -> Option<Seq<u8>> {
    if key.kind is Release {
        None
    } else {
        match key.code {
            KeyCode::Char(c) => char_key_bytes(c, key.modifiers),
            code => named_key_bytes(code),
        }
    }
}

/// The UTF-8 encoding of one character.
pub fn char_utf8(c: char) -> (bytes: Vec<u8>)
    ensures
        bytes@ == encode_scalar(c as u32),
{
    let v: u32 = c as u32;
    proof {
        char_is_scalar(c);
    }
    if v <= 0x7f {
        let b0: u8 = (v & 0x7f) as u8;
        let bytes = vec![b0];
        assert(bytes@ =~= encode_scalar(v));
        bytes
    } else if v <= 0x7ff {
        assert(((v >> 6) & 0x1f) < 256 && (v & 0x3f) < 256) by (bit_vector);
        let b0: u8 = 0xc0u8 | ((v >> 6) & 0x1f) as u8;
        let b1: u8 = 0x80u8 | (v & 0x3f) as u8;
        let bytes = vec![b0, b1];
        assert(bytes@ =~= encode_scalar(v));
        bytes
    } else if v <= 0xffff {
        assert(((v >> 12) & 0x0f) < 256 && ((v >> 6) & 0x3f) < 256 && (v & 0x3f) < 256)
            by (bit_vector);
        let b0: u8 = 0xe0u8 | ((v >> 12) & 0x0f) as u8;
        let b1: u8 = 0x80u8 | ((v >> 6) & 0x3f) as u8;
        let b2: u8 = 0x80u8 | (v & 0x3f) as u8;
        let bytes = vec![b0, b1, b2];
        assert(bytes@ =~= encode_scalar(v));
        bytes
    } else {
        assert(((v >> 18) & 0x7) < 256 && ((v >> 12) & 0x3f) < 256 && ((v >> 6) & 0x3f) < 256
            && (v & 0x3f) < 256) by (bit_vector);
        let b0: u8 = 0xf0u8 | ((v >> 18) & 0x7) as u8;
        let b1: u8 = 0x80u8 | ((v >> 12) & 0x3f) as u8;
        let b2: u8 = 0x80u8 | ((v >> 6) & 0x3f) as u8;
        let b3: u8 = 0x80u8 | (v & 0x3f) as u8;
        let bytes = vec![b0, b1, b2, b3];
        assert(bytes@ =~= encode_scalar(v));
        bytes
    }
}

/// The control code of `c` under Ctrl.
pub fn control_byte(c: char) -> (code: Option<u8>)
    ensures
        code == control_code(c),
{
    if 'a' <= c && c <= 'z' {
        Some((c as u32 - 0x60) as u8)
    } else if 'A' <= c && c <= 'Z' {
        Some((c as u32 - 0x40) as u8)
    } else if c == '@' || c == '_' || c == ' ' {
        Some(0x00)
    } else if c == '[' {
        Some(0x1b)
    } else if c == '\\' {
        Some(0x1c)
    } else if c == ']' {
        Some(0x1d)
    } else if c == '^' || c == '6' {
        Some(0x1e)
    } else {
        None
    }
}

/// Converts a key event into the raw bytes that a shell behind a
/// pseudo-terminal expects; `None` where the event sends nothing.
pub fn encode_key_event(key: KeyEvent) -> (out: Option<Vec<u8>>)
    ensures
        match key_bytes(key) {
            Some(s) => out matches Some(b) && b@ == s,
            None => out is None,
        },
{
    match key.kind {
        KeyEventKind::Release => {
            return None;
        },
        _ => {},
    }
    let bytes: Vec<u8> = match key.code {
        KeyCode::Char(c) => {
            let mut bytes = if key.modifiers.ctrl {
                match control_byte(c) {
                    Some(b) => vec![b],
                    None => {
                        return None;
                    },
                }
            } else {
                char_utf8(c)
            };
            if key.modifiers.alt {
                bytes.insert(0, ESC);
            }
            bytes
        },
        KeyCode::Enter => vec![0x0d],
        KeyCode::Backspace => vec![0x7f],
        KeyCode::Tab => vec![0x09],
        KeyCode::BackTab => vec![ESC, 0x5b, 0x5a],
        KeyCode::Esc => vec![ESC],
        KeyCode::Left => vec![ESC, 0x5b, 0x44],
        KeyCode::Right => vec![ESC, 0x5b, 0x43],
        KeyCode::Up => vec![ESC, 0x5b, 0x41],
        KeyCode::Down => vec![ESC, 0x5b, 0x42],
        KeyCode::Home => vec![ESC, 0x5b, 0x48],
        KeyCode::End => vec![ESC, 0x5b, 0x46],
        KeyCode::PageUp => vec![ESC, 0x5b, 0x35, 0x7e],
        KeyCode::PageDown => vec![ESC, 0x5b, 0x36, 0x7e],
        KeyCode::Delete => vec![ESC, 0x5b, 0x33, 0x7e],
        KeyCode::Insert => vec![ESC, 0x5b, 0x32, 0x7e],
        KeyCode::F(n) => {
            match n {
                1 => vec![ESC, 0x4f, 0x50],
                2 => vec![ESC, 0x4f, 0x51],
                3 => vec![ESC, 0x4f, 0x52],
                4 => vec![ESC, 0x4f, 0x53],
                5 => vec![ESC, 0x5b, 0x31, 0x35, 0x7e],
                6 => vec![ESC, 0x5b, 0x31, 0x37, 0x7e],
                7 => vec![ESC, 0x5b, 0x31, 0x38, 0x7e],
                8 => vec![ESC, 0x5b, 0x31, 0x39, 0x7e],
                9 => vec![ESC, 0x5b, 0x32, 0x30, 0x7e],
                10 => vec![ESC, 0x5b, 0x32, 0x31, 0x7e],
                11 => vec![ESC, 0x5b, 0x32, 0x33, 0x7e],
                12 => vec![ESC, 0x5b, 0x32, 0x34, 0x7e],
                _ => {
                    return None;
                },
            }
        },
        _ => {
            return None;
        },
    };
    assert(bytes@ =~= key_bytes(key)->0);
    Some(bytes)
}

} // verus!
