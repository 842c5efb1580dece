//! Input events, as far as the editor reads them.

use vstd::prelude::*;

verus! {

/// Modifier bit: a shift key is held.
pub const SHIFT: u8 = 0b0000_0001;

/// Modifier bit: a control key is held.
pub const CONTROL: u8 = 0b0000_0010;

/// Modifier bit: an alt key is held.
pub const ALT: u8 = 0b0000_0100;

/// The character of the quit chord, pressed together with control alone.
pub const QUIT_KEY: char = 'q';

/// The key of a key press.
#[derive(Debug, Clone, Copy, PartialEq, Eq)]
pub enum KeyCode {
    /// A key that produces a character.
    Char(char),
    /// Any other key.
    Other,
}

/// One input event.
#[derive(Debug, Clone, Copy, PartialEq, Eq)]
pub enum Event {
    /// A key press with the modifier bits held at the time.
    Key { code: KeyCode, modifiers: u8 },
    /// The terminal now has this many columns and rows.
    Resize(u16, u16),
    /// Anything else the terminal reports.
    Other,
}

impl Event {
    /// Whether the event is the quit chord: the quit key with control held
    /// and no other modifier.
    pub open spec fn is_quit_chord(self) -> bool {
        self == (Event::Key { code: KeyCode::Char(QUIT_KEY), modifiers: CONTROL })
    }

    /// Tells whether the event is the quit chord.
    pub fn is_quit(&self) -> (quit: bool)
        ensures
            quit == self.is_quit_chord(),
    {
        match self {
            Event::Key { code: KeyCode::Char(c), modifiers } => *c == QUIT_KEY
                && *modifiers == CONTROL,
            _ => false,
        }
    }
}

} // verus!
