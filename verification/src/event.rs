//! What the terminal reports to the viewer: key presses and changes of the
//! window's size, as plain values.

use vstd::prelude::*;

verus! {

/// Whether a key went down, is held, or came up.
#[derive(Debug, Clone, Copy, PartialEq, Eq, Structural)]
pub enum KeyEventKind {
    Press,
    Repeat,
    Release,
}

/// The modifier keys that were held with a key, one flag each.
#[derive(Debug, Clone, Copy, PartialEq, Eq, Structural)]
pub struct KeyModifiers {
    pub shift: bool,
    pub control: bool,
    pub alt: bool,
    pub super_key: bool,
    pub hyper: bool,
    pub meta: bool,
}

impl KeyModifiers {
    /// Control is held and no other modifier is.
    pub open spec fn control_only(self) -> bool {
        self.control && !self.shift && !self.alt && !self.super_key && !self.hyper && !self.meta
    }

    /// Whether control is held and no other modifier is.
    pub fn is_control_only(&self) -> (res: bool)
        ensures
            res == self.control_only(),
    {
        self.control && !self.shift && !self.alt && !self.super_key && !self.hyper && !self.meta
    }
}

/// The ways to move the cursor.
#[derive(Debug, Clone, Copy, PartialEq, Eq, Structural)]
pub enum Direction {
    Left,
    Right,
    Up,
    Down,
    PageUp,
    PageDown,
    Home,
    End,
}

/// The key of a key event: one of the navigation keys, a character, or any
/// other key.
#[derive(Debug, Clone, Copy, PartialEq, Eq, Structural)]
pub enum KeyCode {
    Left,
    Right,
    Up,
    Down,
    Home,
    End,
    PageUp,
    PageDown,
    Char(char),
    Other,
}

impl KeyCode {
    /// The move that a key asks for, if it is a navigation key.
    pub open spec fn direction(self) -> Option<Direction> {
        match self {
            KeyCode::Left => Some(Direction::Left),
            KeyCode::Right => Some(Direction::Right),
            KeyCode::Up => Some(Direction::Up),
            KeyCode::Down => Some(Direction::Down),
            KeyCode::Home => Some(Direction::Home),
            KeyCode::End => Some(Direction::End),
            KeyCode::PageUp => Some(Direction::PageUp),
            KeyCode::PageDown => Some(Direction::PageDown),
            KeyCode::Char(_) => None,
            KeyCode::Other => None,
        }
    }

    /// The move that this key asks for; `None` for a key that moves nothing.
    pub fn to_direction(&self) -> (res: Option<Direction>)
        ensures
            res == self.direction(),
    {
        match self {
            KeyCode::Left => Some(Direction::Left),
            KeyCode::Right => Some(Direction::Right),
            KeyCode::Up => Some(Direction::Up),
            KeyCode::Down => Some(Direction::Down),
            KeyCode::Home => Some(Direction::Home),
            KeyCode::End => Some(Direction::End),
            KeyCode::PageUp => Some(Direction::PageUp),
            KeyCode::PageDown => Some(Direction::PageDown),
            KeyCode::Char(_) => None,
            KeyCode::Other => None,
        }
    }
}

/// A key event: the key, the modifiers held with it, and what happened to it.
#[derive(Debug, Clone, Copy, PartialEq, Eq, Structural)]
pub struct KeyEvent {
    pub code: KeyCode,
    pub modifiers: KeyModifiers,
    pub kind: KeyEventKind,
}

/// An event from the terminal.
#[derive(Debug, Clone, Copy, PartialEq, Eq, Structural)]
pub enum Event {
    /// A key event.
    Key(KeyEvent),
    /// The window has a new size: its width, then its height.
    Resize(u16, u16),
    /// Anything else; the viewer ignores it.
    Other,
}

} // verus!
