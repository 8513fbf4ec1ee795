use vstd::prelude::*;

verus! {

/// The key that was pressed, without its modifiers.
#[derive(Clone, Copy, Debug, PartialEq, Eq, Hash, Structural)]
pub enum KeyCode {
    Char(char),
    Enter,
    Esc,
    Backspace,
    Tab,
    BackTab,
    Delete,
    Insert,
    Home,
    End,
    PageUp,
    PageDown,
    Up,
    Down,
    Left,
    Right,
    F(u8),
}

/// The modifier keys held while a key was pressed.
#[derive(Clone, Copy, Debug, PartialEq, Eq, Hash, Structural)]
pub struct Modifiers {
    pub control: bool,
    pub alt: bool,
    pub shift: bool,
}

impl Modifiers {
    pub fn none() -> (r: Modifiers)
        ensures
            r == (Modifiers { control: false, alt: false, shift: false }),
    {
        Modifiers { control: false, alt: false, shift: false }
    }
}

/// A key together with its modifiers: the unit a keymap is keyed by.
#[derive(Clone, Copy, Debug, PartialEq, Eq, Hash, Structural)]
pub struct KeyPress {
    pub code: KeyCode,
    pub modifiers: Modifiers,
}

/// What a mouse did.
#[derive(Clone, Copy, Debug, PartialEq, Eq, Hash, Structural)]
pub enum MouseKind {
    Down,
    Up,
    Drag,
    Moved,
    ScrollUp,
    ScrollDown,
}

/// A mouse report: what happened and in which cell.
#[derive(Clone, Copy, Debug, PartialEq, Eq, Hash, Structural)]
pub struct MouseInput {
    pub kind: MouseKind,
    pub column: u16,
    pub row: u16,
}

/// A normalized input or system notification.
#[derive(Clone, Debug, PartialEq, Eq, Hash)]
pub enum Event {
    Key(KeyCode, Modifiers),
    Mouse(MouseInput),
    Resize(u16, u16),
    Paste(String),
    Render,
    Tick,
}

impl Event {
    /// The key press an event carries, if it is a key event.
    pub open spec fn key_press(&self) -> Option<KeyPress> {
        match self {
            Event::Key(code, modifiers) => Some(KeyPress { code: *code, modifiers: *modifiers }),
            _ => None,
        }
    }

    pub fn as_key_press(&self) -> (r: Option<KeyPress>)
        ensures
            r == self.key_press(),
    {
        match self {
            Event::Key(code, modifiers) => Some(KeyPress { code: *code, modifiers: *modifiers }),
            _ => None,
        }
    }
}

} // verus!
