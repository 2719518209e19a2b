//! The core of a read-only terminal text viewer: a line buffer, a cursor and
//! scroll state machine over it, and the frames to paint, as plain values.

pub mod buffer;
pub mod editor;
pub mod event;
pub mod terminal;
pub mod text;
pub mod view;
