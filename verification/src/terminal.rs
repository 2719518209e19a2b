//! Plain values that describe a terminal: its size, positions on it, and the
//! commands that paint a frame.

use vstd::prelude::*;

verus! {

/// The size of the terminal window, in character cells.
#[derive(Debug, Clone, Copy, PartialEq, Eq, Structural)]
pub struct Size {
    pub width: u16,
    pub height: u16,
}

impl Default for Size {
    fn default() -> (size: Self)
        ensures
            size == (Size { width: 0, height: 0 }),
    {
        Size { width: 0, height: 0 }
    }
}

/// A cell of the terminal window: `x` counts columns, `y` counts rows.
#[derive(Debug, Clone, Copy, PartialEq, Eq, Structural)]
pub struct Position {
    pub x: u16,
    pub y: u16,
}

impl Default for Position {
    fn default() -> (position: Self)
        ensures
            position == (Position { x: 0, y: 0 }),
    {
        Position { x: 0, y: 0 }
    }
}

/// The colors that the viewer paints with.
#[derive(Debug, Clone, Copy, PartialEq, Eq, Structural)]
pub enum Color {
    Black,
    White,
}

/// One instruction for the terminal. A frame is a sequence of them, carried
/// out in order.
#[derive(Debug, PartialEq, Eq)]
pub enum Command {
    ClearScreen,
    ClearLine,
    MoveCursorTo(Position),
    HideCursor,
    ShowCursor,
    Print(String),
    SetForegroundColor(Color),
    SetBackgroundColor(Color),
    Execute,
}

/// What a `Command` says, with printed text as a sequence of characters.
pub enum CommandView {
    ClearScreen,
    ClearLine,
    MoveCursorTo(Position),
    HideCursor,
    ShowCursor,
    Print(Seq<char>),
    SetForegroundColor(Color),
    SetBackgroundColor(Color),
    Execute,
}

impl View for Command {
    type V = CommandView;

    open spec fn view(&self) -> CommandView {
        match self {
            Command::ClearScreen => CommandView::ClearScreen,
            Command::ClearLine => CommandView::ClearLine,
            Command::MoveCursorTo(position) => CommandView::MoveCursorTo(*position),
            Command::HideCursor => CommandView::HideCursor,
            Command::ShowCursor => CommandView::ShowCursor,
            Command::Print(text) => CommandView::Print(text@),
            Command::SetForegroundColor(color) => CommandView::SetForegroundColor(*color),
            Command::SetBackgroundColor(color) => CommandView::SetBackgroundColor(*color),
            Command::Execute => CommandView::Execute,
        }
    }
}

/// The views of a sequence of commands, in order.
pub open spec fn views(commands: Seq<Command>) -> Seq<CommandView> {
    Seq::new(commands.len(), |i: int| commands[i]@)
}

} // verus!
