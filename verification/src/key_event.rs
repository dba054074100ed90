//! Key events as the engine reads them: which key, which modifiers were
//! held, whether it was pressed, repeated or released, and the keyboard
//! state flags.

use vstd::prelude::*;

verus! {

/// No modifier key.
pub const NONE: u8 = 0;

/// The Shift modifier.
pub const SHIFT: u8 = 1;

/// The Control modifier.
pub const CONTROL: u8 = 2;

/// The Alt modifier.
pub const ALT: u8 = 4;

/// The Super modifier.
pub const SUPER: u8 = 8;

/// The Hyper modifier.
pub const HYPER: u8 = 16;

/// The Meta modifier.
pub const META: u8 = 32;

/// A media key.
#[derive(Clone, Copy, Debug, PartialEq, Eq, Structural, Hash)]
pub enum MediaKeyCode {
    Play,
    Pause,
    PlayPause,
    Reverse,
    Stop,
    FastForward,
    Rewind,
    TrackNext,
    TrackPrevious,
    Record,
    LowerVolume,
    RaiseVolume,
    MuteVolume,
}

/// A modifier key pressed on its own.
#[derive(Clone, Copy, Debug, PartialEq, Eq, Structural, Hash)]
pub enum ModifierKeyCode {
    LeftShift,
    LeftControl,
    LeftAlt,
    LeftSuper,
    LeftHyper,
    LeftMeta,
    RightShift,
    RightControl,
    RightAlt,
    RightSuper,
    RightHyper,
    RightMeta,
    IsoLevel3Shift,
    IsoLevel5Shift,
}

/// The key of a key event.
#[derive(Clone, Copy, Debug, PartialEq, Eq, Structural, Hash)]
pub enum KeyCode {
    Backspace,
    Enter,
    Left,
    Right,
    Up,
    Down,
    Home,
    End,
    PageUp,
    PageDown,
    Tab,
    BackTab,
    Delete,
    Insert,
    /// A function key, by its number.
    F(u8),
    /// A character key.
    Char(char),
    Null,
    Esc,
    CapsLock,
    ScrollLock,
    NumLock,
    PrintScreen,
    Pause,
    Menu,
    KeypadBegin,
    Media(MediaKeyCode),
    Modifier(ModifierKeyCode),
}

/// Whether a key went down, is held down, or came up.
#[derive(Clone, Copy, Debug, PartialEq, Eq, Structural, Hash)]
pub enum KeyEventKind {
    Press,
    Repeat,
    Release,
}

/// One key event.
#[derive(Clone, Copy, Debug, PartialEq, Eq, Structural, Hash)]
pub struct KeyEvent {
    /// The key itself.
    pub code: KeyCode,
    /// The modifier keys held, one bit each: [`SHIFT`], [`CONTROL`], [`ALT`],
    /// [`SUPER`], [`HYPER`], [`META`].
    pub modifiers: u8,
    /// The kind of event.
    pub kind: KeyEventKind,
    /// The keyboard state flags, one bit each.
    pub state: u8,
}

/// Whether `c` is one of the letters `A` to `Z`.
pub open spec fn is_ascii_uppercase(c: char) -> bool {
    'A' <= c <= 'Z'
}

/// Whether `c` is one of the letters `a` to `z`.
pub open spec fn is_ascii_lowercase(c: char) -> bool {
    'a' <= c <= 'z'
}

/// The letter `a` to `z` as the letter `A` to `Z`; any other character
/// unchanged.
pub open spec fn to_ascii_uppercase(c: char) -> char {
    if is_ascii_lowercase(c) {
        ((c as u8 - 32) as u8) as char
    } else {
        c
    }
}

/// Whether the Shift bit is set in `modifiers`.
pub open spec fn has_shift(modifiers: u8) -> bool {
    modifiers & SHIFT == SHIFT
}

fn upper_of(c: char) -> (upper: char)
    ensures
        upper == to_ascii_uppercase(c),
{
    if 'a' <= c && c <= 'z' {
        let lower: u8 = c as u8;
        (lower - 32) as char
    } else {
        c
    }
}

impl KeyEvent {
    /// A press of `code` with the given modifiers held and no state flag set.
    pub fn new(code: KeyCode, modifiers: u8) -> (key_event: KeyEvent)
        ensures
            key_event == (KeyEvent { code, modifiers, kind: KeyEventKind::Press, state: 0 }),
    {
        KeyEvent { code, modifiers, kind: KeyEventKind::Press, state: 0 }
    }

    /// A press of `code` with no modifier held and no state flag set.
    pub open spec fn press(code: KeyCode) -> KeyEvent {
        KeyEvent { code, modifiers: NONE, kind: KeyEventKind::Press, state: 0 }
    }

    /// The event in the form in which two events are compared: for a
    /// character key, an upper-case letter counts as typed with Shift, and a
    /// letter typed with Shift counts as its upper-case letter. Any other
    /// event is its own normal form.
    pub open spec fn normalized(self) -> KeyEvent {
        match self.code {
            KeyCode::Char(c) => if is_ascii_uppercase(c) {
                KeyEvent { modifiers: self.modifiers | SHIFT, ..self }
            } else if has_shift(self.modifiers) {
                KeyEvent { code: KeyCode::Char(to_ascii_uppercase(c)), ..self }
            } else {
                self
            },
            _ => self,
        }
    }

    /// Whether two events are the same key event: their normal forms agree
    /// in key, modifiers, kind and state.
    pub open spec fn same_key(self, other: KeyEvent) -> bool {
        self.normalized() == other.normalized()
    }

    /// Computes [`Self::normalized`].
    pub fn normalize_case(self) -> (normal: KeyEvent)
        ensures
            normal == self.normalized(),
    {
        match self.code {
            KeyCode::Char(c) => {
                if 'A' <= c && c <= 'Z' {
                    KeyEvent {
                        code: self.code,
                        modifiers: self.modifiers | SHIFT,
                        kind: self.kind,
                        state: self.state,
                    }
                } else if self.modifiers & SHIFT == SHIFT {
                    KeyEvent {
                        code: KeyCode::Char(upper_of(c)),
                        modifiers: self.modifiers,
                        kind: self.kind,
                        state: self.state,
                    }
                } else {
                    self
                }
            },
            _ => self,
        }
    }

    /// Decides [`Self::same_key`].
    pub fn is_same_key(self, other: KeyEvent) -> (same: bool)
        ensures
            same == self.same_key(other),
    {
        self.normalize_case() == other.normalize_case()
    }
}

impl From<KeyCode> for KeyEvent {
    /// A press of `code` with no modifier held and no state flag set.
    fn from(code: KeyCode) -> (key_event: KeyEvent) {
        KeyEvent { code, modifiers: NONE, kind: KeyEventKind::Press, state: 0 }
    }
}

impl vstd::std_specs::convert::FromSpecImpl<KeyCode> for KeyEvent {
    open spec fn obeys_from_spec() -> bool {
        true
    }

    open spec fn from_spec(code: KeyCode) -> KeyEvent {
        KeyEvent::press(code)
    }
}

} // verus!
