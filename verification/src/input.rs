//! The input mapper: a pure function from a raw key code and the current
//! modifier state to the abstract key event the application understands, or
//! nothing when the combination is not recognized.

use vstd::prelude::*;

verus! {

/// The modifier state reported by the windowing system.
#[derive(Debug, Clone, Copy, PartialEq, Eq, Structural)]
pub struct Modifiers {
    pub ctrl: bool,
    pub shift: bool,
    pub alt: bool,
    pub logo: bool,
}

impl Modifiers {
    /// The state with no modifier held.
    pub fn none() -> (m: Modifiers)
        ensures
            m == (Modifiers { ctrl: false, shift: false, alt: false, logo: false }),
    {
        Modifiers { ctrl: false, shift: false, alt: false, logo: false }
    }
}

/// A raw key code, as delivered by the windowing system.
#[derive(Debug, Clone, Copy, PartialEq, Eq, Structural)]
pub enum KeyCode {
    Char(char),
    Equals,
    Minus,
    Space,
    Enter,
    Tab,
    Backspace,
    Escape,
    Left,
    Right,
    Up,
    Down,
    Home,
    End,
    PageUp,
    PageDown,
    Delete,
    Insert,
    Function(u8),
}

/// An abstract key event understood by the application.
#[derive(Debug, Clone, Copy, PartialEq, Eq, Structural)]
pub enum AbstractKey {
    Char(char),
    Ctrl(char),
    Alt(char),
    Backspace,
    Esc,
    Left,
    Right,
    Up,
    Down,
    Home,
    End,
    PageUp,
    PageDown,
    Delete,
    Insert,
    Function(u8),
}

/// Whether a key press is one of the two reserved font-size accelerators:
/// modifier+`=` (increase) or modifier+`-` (decrease).
pub open spec fn is_accelerator(key: KeyCode, modifiers: Modifiers) -> bool {
    modifiers.ctrl && (key == KeyCode::Equals || key == KeyCode::Minus)
}

/// The character a printable key code stands for, if any.
pub open spec fn spec_char_of(key: KeyCode) -> Option<char> {
    match key {
        KeyCode::Char(c) => Some(c),
        KeyCode::Equals => Some('='),
        KeyCode::Minus => Some('-'),
        KeyCode::Space => Some(' '),
        KeyCode::Enter => Some('\n'),
        KeyCode::Tab => Some('\t'),
        _ => None,
    }
}

/// The abstract key a raw key press maps to, or `None` when the combination
/// is not recognized and is silently dropped.
pub open spec fn spec_map_key(key: KeyCode, modifiers: Modifiers) -> Option<AbstractKey> {
    if modifiers.logo {
        None
    } else {
        match spec_char_of(key) {
            Some(c) => if modifiers.ctrl {
                Some(AbstractKey::Ctrl(c))
            } else if modifiers.alt {
                Some(AbstractKey::Alt(c))
            } else {
                Some(AbstractKey::Char(c))
            },
            None => match key {
                KeyCode::Backspace => Some(AbstractKey::Backspace),
                KeyCode::Escape => Some(AbstractKey::Esc),
                KeyCode::Left => Some(AbstractKey::Left),
                KeyCode::Right => Some(AbstractKey::Right),
                KeyCode::Up => Some(AbstractKey::Up),
                KeyCode::Down => Some(AbstractKey::Down),
                KeyCode::Home => Some(AbstractKey::Home),
                KeyCode::End => Some(AbstractKey::End),
                KeyCode::PageUp => Some(AbstractKey::PageUp),
                KeyCode::PageDown => Some(AbstractKey::PageDown),
                KeyCode::Delete => Some(AbstractKey::Delete),
                KeyCode::Insert => Some(AbstractKey::Insert),
                KeyCode::Function(n) => if 1 <= n <= 12 {
                    Some(AbstractKey::Function(n))
                } else {
                    None
                },
                _ => None,
            },
        }
    }
}

/// Maps a raw key press to an abstract key event, deterministically;
/// unrecognized combinations yield `None` and are dropped, never an error.
pub fn map_key(key: KeyCode, modifiers: Modifiers) -> (r: Option<AbstractKey>)
    ensures
        r == spec_map_key(key, modifiers),
{
    if modifiers.logo {
        return None;
    }
    let ch: Option<char> = match key {
        KeyCode::Char(c) => Some(c),
        KeyCode::Equals => Some('='),
        KeyCode::Minus => Some('-'),
        KeyCode::Space => Some(' '),
        KeyCode::Enter => Some('\n'),
        KeyCode::Tab => Some('\t'),
        _ => None,
    };
    match ch {
        Some(c) => if modifiers.ctrl {
            Some(AbstractKey::Ctrl(c))
        } else if modifiers.alt {
            Some(AbstractKey::Alt(c))
        } else {
            Some(AbstractKey::Char(c))
        },
        None => match key {
            KeyCode::Backspace => Some(AbstractKey::Backspace),
            KeyCode::Escape => Some(AbstractKey::Esc),
            KeyCode::Left => Some(AbstractKey::Left),
            KeyCode::Right => Some(AbstractKey::Right),
            KeyCode::Up => Some(AbstractKey::Up),
            KeyCode::Down => Some(AbstractKey::Down),
            KeyCode::Home => Some(AbstractKey::Home),
            KeyCode::End => Some(AbstractKey::End),
            KeyCode::PageUp => Some(AbstractKey::PageUp),
            KeyCode::PageDown => Some(AbstractKey::PageDown),
            KeyCode::Delete => Some(AbstractKey::Delete),
            KeyCode::Insert => Some(AbstractKey::Insert),
            KeyCode::Function(n) => if 1 <= n && n <= 12 {
                Some(AbstractKey::Function(n))
            } else {
                None
            },
            _ => None,
        },
    }
}

/// Tests whether a key press is a reserved accelerator.
pub fn accelerator(key: KeyCode, modifiers: Modifiers) -> (r: bool)
    ensures
        r == is_accelerator(key, modifiers),
{
    modifiers.ctrl && (matches!(key, KeyCode::Equals) || matches!(key, KeyCode::Minus))
}

} // verus!
