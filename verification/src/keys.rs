//! Keyboard input as the handlers read it.
use vstd::prelude::*;

verus! {

/// The key of a key event.
#[derive(Debug, Clone, Copy, PartialEq, Eq, Structural)]
pub enum KeyCode {
    Char(char),
    Enter,
    Esc,
    Backspace,
    Tab,
    BackTab,
    Up,
    Down,
    Left,
    Right,
    Home,
    End,
    PageUp,
    PageDown,
    Delete,
    /// Any key the handlers do not tell apart.
    Other,
}

/// Modifier keys held during a key event.
#[derive(Debug, Clone, Copy, PartialEq, Eq, Structural)]
pub struct KeyModifiers {
    pub shift: bool,
    pub control: bool,
    pub alt: bool,
}

/// A key event: the key, the modifiers, and whether it is a press (as
/// opposed to a release or a repeat).
#[derive(Debug, Clone, Copy, PartialEq, Eq, Structural)]
pub struct KeyEvent {
    pub code: KeyCode,
    pub modifiers: KeyModifiers,
    pub is_press: bool,
}

impl KeyModifiers {
    /// No modifier held.
    pub fn none() -> (r: Self)
        ensures
            !r.shift && !r.control && !r.alt,
    {
        KeyModifiers { shift: false, control: false, alt: false }
    }
}

impl KeyEvent {
    /// A press of `code` with no modifier.
    pub fn press(code: KeyCode) -> (r: Self)
        ensures
            r.code == code,
            r.modifiers == KeyModifiers::none_spec(),
            r.is_press,
    {
        KeyEvent { code, modifiers: KeyModifiers::none(), is_press: true }
    }
}

impl KeyModifiers {
    pub open spec fn none_spec() -> KeyModifiers {
        KeyModifiers { shift: false, control: false, alt: false }
    }
}

/// `code` is the character `lower` or `upper`.
pub open spec fn is_char_key(code: KeyCode, lower: char, upper: char) -> bool {
    code == KeyCode::Char(lower) || code == KeyCode::Char(upper)
}

/// Down arrow, `j` or `J`.
pub open spec fn is_down_key(code: KeyCode) -> bool {
    code == KeyCode::Down || is_char_key(code, 'j', 'J')
}

/// Up arrow, `k` or `K`.
pub open spec fn is_up_key(code: KeyCode) -> bool {
    code == KeyCode::Up || is_char_key(code, 'k', 'K')
}

/// Whether `code` moves down a list.
pub fn down_key(code: KeyCode) -> (r: bool)
    ensures
        r == is_down_key(code),
{
    match code {
        KeyCode::Down => true,
        KeyCode::Char(c) => c == 'j' || c == 'J',
        _ => false,
    }
}

/// Whether `code` moves up a list.
pub fn up_key(code: KeyCode) -> (r: bool)
    ensures
        r == is_up_key(code),
{
    match code {
        KeyCode::Up => true,
        KeyCode::Char(c) => c == 'k' || c == 'K',
        _ => false,
    }
}

} // verus!
