//! Key events as the shell reads them, and the command each one stands for.

use vstd::prelude::*;

verus! {

/// The set of modifier keys held during a key press, one bit per modifier.
#[derive(Clone, Copy, Debug, PartialEq, Eq, Structural)]
pub struct KeyModifiers {
    pub bits: u8,
}

impl KeyModifiers {
    /// The bits of the empty set.
    pub const NONE: u8 = 0;

    /// The bit of the Shift key.
    pub const SHIFT: u8 = 1;

    /// The bit of the Control key.
    pub const CONTROL: u8 = 2;

    /// The bit of the Alt key.
    pub const ALT: u8 = 4;

    /// The bit of the Super key.
    pub const SUPER: u8 = 8;

    /// The bit of the Hyper key.
    pub const HYPER: u8 = 16;

    /// The bit of the Meta key.
    pub const META: u8 = 32;

    /// The set with exactly the given bits.
    pub fn from_bits(bits: u8) -> (m: KeyModifiers)
        ensures
            m.bits == bits,
    {
        KeyModifiers { bits }
    }

    /// No modifier held.
    pub fn none() -> (m: KeyModifiers)
        ensures
            m.bits == Self::NONE,
    {
        KeyModifiers { bits: Self::NONE }
    }

    /// Shift held alone.
    pub fn shift() -> (m: KeyModifiers)
        ensures
            m.bits == Self::SHIFT,
    {
        KeyModifiers { bits: Self::SHIFT }
    }

    /// Control held alone.
    pub fn control() -> (m: KeyModifiers)
        ensures
            m.bits == Self::CONTROL,
    {
        KeyModifiers { bits: Self::CONTROL }
    }
}

/// The key that was pressed. Keys that no transition of the shell reads are
/// all `Other`.
#[derive(Clone, Copy, Debug, PartialEq, Eq, Structural)]
pub enum KeyCode {
    Char(char),
    Enter,
    Esc,
    Other,
}

/// One decoded key press: the key and the modifiers held with it.
#[derive(Clone, Copy, Debug, PartialEq, Eq, Structural)]
pub struct KeyEvent {
    pub code: KeyCode,
    pub modifiers: KeyModifiers,
}

/// What a key event asks of the shell.
#[derive(Clone, Copy, Debug, PartialEq, Eq, Structural)]
pub enum KeyAction {
    /// Leave the session.
    Quit,
    /// Show the history cursor and the history.
    ShowHistory,
    /// Submit the line that has been typed.
    Submit,
    /// Append the character to the line.
    Insert(char),
    /// The event is outside the shell's transition table.
    Unhandled,
}

/// A character is printable when it is no control character: neither below
/// U+0020 nor in U+007F..=U+009F. A line feed is therefore never printable.
pub open spec fn is_printable(c: char) -> bool {
    !(c as u32 <= 0x1F || 0x7F <= c as u32 <= 0x9F)
}

/// Every character of `line` is printable.
pub open spec fn all_printable(line: Seq<char>) -> bool {
    forall|i: int| 0 <= i < line.len() ==> is_printable(#[trigger] line[i])
}

/// Decides whether `c` is printable.
pub fn printable(c: char) -> (b: bool)
    ensures
        b == is_printable(c),
{
    let n: u32 = c as u32;
    !(n <= 0x1F || (0x7F <= n && n <= 0x9F))
}

/// The press of the key of the character `c` with no modifier held.
pub open spec fn typed_key(c: char) -> KeyEvent {
    KeyEvent { code: KeyCode::Char(c), modifiers: KeyModifiers { bits: KeyModifiers::NONE } }
}

/// The press of the character `c` with Control held.
pub open spec fn control_key(c: char) -> KeyEvent {
    KeyEvent { code: KeyCode::Char(c), modifiers: KeyModifiers { bits: KeyModifiers::CONTROL } }
}

/// The press of Enter with no modifier held.
pub open spec fn enter_key() -> KeyEvent {
    KeyEvent { code: KeyCode::Enter, modifiers: KeyModifiers { bits: KeyModifiers::NONE } }
}

/// The press of Escape with no modifier held.
pub open spec fn escape_key() -> KeyEvent {
    KeyEvent { code: KeyCode::Esc, modifiers: KeyModifiers { bits: KeyModifiers::NONE } }
}

impl KeyEvent {
    /// The action that this event stands for.
    ///
    /// Escape alone and Control+`q` quit, Control+`h` shows the history, Enter
    /// alone submits, and a printable character with no modifier or with
    /// Shift alone is inserted. Every other event is unhandled.
    pub open spec fn action_of(self) -> KeyAction {
        match self.code {
            KeyCode::Esc => if self.modifiers.bits == KeyModifiers::NONE {
                KeyAction::Quit
            } else {
                KeyAction::Unhandled
            },
            KeyCode::Enter => if self.modifiers.bits == KeyModifiers::NONE {
                KeyAction::Submit
            } else {
                KeyAction::Unhandled
            },
            KeyCode::Char(c) => if self.modifiers.bits == KeyModifiers::CONTROL && c == 'q' {
                KeyAction::Quit
            } else if self.modifiers.bits == KeyModifiers::CONTROL && c == 'h' {
                KeyAction::ShowHistory
            } else if (self.modifiers.bits == KeyModifiers::NONE || self.modifiers.bits
                == KeyModifiers::SHIFT) && is_printable(c) {
                KeyAction::Insert(c)
            } else {
                KeyAction::Unhandled
            },
            KeyCode::Other => KeyAction::Unhandled,
        }
    }

    pub fn new(code: KeyCode, modifiers: KeyModifiers) -> (key: KeyEvent)
        ensures
            key == (KeyEvent { code, modifiers }),
    {
        KeyEvent { code, modifiers }
    }

    /// Computes the action that this event stands for.
    pub fn action(&self) -> (a: KeyAction)
        ensures
            a == self.action_of(),
    {
        match self.code {
            KeyCode::Esc => if self.modifiers.bits == KeyModifiers::NONE {
                KeyAction::Quit
            } else {
                KeyAction::Unhandled
            },
            KeyCode::Enter => if self.modifiers.bits == KeyModifiers::NONE {
                KeyAction::Submit
            } else {
                KeyAction::Unhandled
            },
            KeyCode::Char(c) => {
                let bits: u8 = self.modifiers.bits;
                if bits == KeyModifiers::CONTROL && c == 'q' {
                    KeyAction::Quit
                } else if bits == KeyModifiers::CONTROL && c == 'h' {
                    KeyAction::ShowHistory
                } else if (bits == KeyModifiers::NONE || bits == KeyModifiers::SHIFT) && printable(c) {
                    KeyAction::Insert(c)
                } else {
                    KeyAction::Unhandled
                }
            },
            KeyCode::Other => KeyAction::Unhandled,
        }
    }
}

} // verus!
