//! Key presses and mouse actions as the views take them: the keys and
//! buttons they tell apart, and where the mouse was.

use vstd::prelude::*;

verus! {

/// Which key was pressed.
#[derive(Clone, Copy, Debug, PartialEq, Eq, Structural)]
pub enum KeyCode {
    Char(char),
    Enter,
    Esc,
    Tab,
    BackTab,
    Backspace,
    Delete,
    Up,
    Down,
    Left,
    Right,
    Home,
    End,
    PageUp,
    PageDown,
    /// A function key, by its number.
    F(u8),
    /// A key none of the views has a use for.
    Other,
}

/// A key press with the modifiers held.
#[derive(Clone, Copy, Debug, PartialEq, Eq, Structural)]
pub struct Key {
    pub code: KeyCode,
    pub ctrl: bool,
    pub shift: bool,
}

impl Key {
    /// A key pressed on its own.
    pub fn plain(code: KeyCode) -> (key: Key)
        ensures
            key == (Key { code, ctrl: false, shift: false }),
    {
        Key { code, ctrl: false, shift: false }
    }

    /// A key pressed with Ctrl.
    pub fn ctrl(code: KeyCode) -> (key: Key)
        ensures
            key == (Key { code, ctrl: true, shift: false }),
    {
        Key { code, ctrl: true, shift: false }
    }

    /// Whether the key is the prefix that holds the next key for the
    /// editor: Ctrl+], or Ctrl+5, which is how a terminal without the
    /// kitty keyboard protocol delivers the byte Ctrl+] sends.
    pub open spec fn is_prefix_spec(self) -> bool {
        self.ctrl && (self.code == KeyCode::Char(']') || self.code == KeyCode::Char('5'))
    }

    /// Whether the key is the prefix.
    pub fn is_prefix(self) -> (prefix: bool)
        ensures
            prefix == self.is_prefix_spec(),
    {
        self.ctrl && match self.code {
            KeyCode::Char(c) => c == ']' || c == '5',
            _ => false,
        }
    }
}

/// A mouse button.
#[derive(Clone, Copy, Debug, PartialEq, Eq, Structural)]
pub enum MouseButton {
    Left,
    Right,
    Middle,
}

/// What the mouse did.
#[derive(Clone, Copy, Debug, PartialEq, Eq, Structural)]
pub enum MouseKind {
    Down(MouseButton),
    Up(MouseButton),
    Drag(MouseButton),
    Moved,
    ScrollUp,
    ScrollDown,
    ScrollLeft,
    ScrollRight,
}

/// A mouse action at a cell of the screen.
#[derive(Clone, Copy, Debug, PartialEq, Eq, Structural)]
pub struct Mouse {
    pub kind: MouseKind,
    pub column: u16,
    pub row: u16,
}

} // verus!
