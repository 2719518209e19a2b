//! The viewer as a whole: a view, and whether the user has asked to leave.

use crate::event::{Event, KeyCode, KeyEventKind};
use crate::terminal::{views, Command, CommandView, Position, Size};
use crate::view::{Point, View, ViewModel};
use vstd::prelude::*;
use vstd::view::View as _;

verus! {

/// Whether an event asks to leave the viewer: a press of `q` with control
/// held, and no other modifier.
pub open spec fn is_quit(event: Event) -> bool {
    &&& event matches Event::Key(key_event)
    &&& key_event.code == KeyCode::Char('q')
    &&& key_event.kind == KeyEventKind::Press
    &&& key_event.modifiers.control_only()
}

/// The commands that clear the screen and take leave.
pub open spec fn farewell_commands() -> Seq<CommandView> {
    seq![
        CommandView::ClearScreen,
        CommandView::MoveCursorTo(Position { x: 0, y: 0 }),
        CommandView::Print("Goodbye.\r\n"@),
    ]
}

/// The state of an `Editor` as the contracts see it.
pub struct EditorModel {
    /// Whether the user has asked to leave.
    pub should_quit: bool,
    /// The state of the view.
    pub view: ViewModel,
}

impl EditorModel {
    /// The state after an event: the quit key is noted, and every other
    /// event goes to the view.
    pub open spec fn after_event(self, event: Event) -> EditorModel {
        if is_quit(event) {
            EditorModel { should_quit: true, ..self }
        } else {
            EditorModel { view: self.view.after_event(event), ..self }
        }
    }

    /// The state after a render on a terminal of size `size`: the view has
    /// rendered, unless the user has asked to leave.
    pub open spec fn after_render(self, size: Size) -> EditorModel {
        if self.should_quit {
            self
        } else {
            EditorModel { view: self.view.after_render(size), ..self }
        }
    }

    /// The commands of a render on a terminal of size `size`: with the
    /// cursor hidden, the farewell if the user has asked to leave, and else
    /// what the view paints; then the cursor is shown again and all of it is
    /// carried out.
    pub open spec fn render_commands(self, size: Size) -> Seq<CommandView> {
        seq![CommandView::HideCursor] + (if self.should_quit {
            farewell_commands()
        } else {
            self.view.render_commands(size)
        }) + seq![CommandView::ShowCursor, CommandView::Execute]
    }
}

/// The viewer: its view, and whether the user has asked to leave.
pub struct Editor {
    pub should_quit: bool,
    pub view: View,
}

impl vstd::view::View for Editor {
    type V = EditorModel;

    open spec fn view(&self) -> EditorModel {
        EditorModel { should_quit: self.should_quit, view: self.view@ }
    }
}

impl Editor {
    /// A viewer with an empty view, which nobody has asked to leave.
    pub fn new() -> (editor: Self)
        ensures
            editor@ == (EditorModel {
                should_quit: false,
                view: ViewModel {
                    lines: Seq::empty(),
                    path: "<empty file>"@,
                    needs_redraw: false,
                    size: Size { width: 0, height: 0 },
                    cursor: Point { row: 0, col: 0 },
                    scroll: Point { row: 0, col: 0 },
                },
            }),
    {
        Editor { should_quit: false, view: View::default() }
    }

    /// Takes an event from the terminal: the quit key is noted, and every
    /// other event goes to the view.
    pub fn handle_event(&mut self, event: &Event)
        ensures
            final(self)@ == old(self)@.after_event(*event),
    {
        let quit = match event {
            Event::Key(key_event) => match key_event.code {
                KeyCode::Char(c) => c == 'q' && key_event.kind == KeyEventKind::Press
                    && key_event.modifiers.is_control_only(),
                _ => false,
            },
            _ => false,
        };
        if quit {
            self.should_quit = true;
        } else {
            self.view.handle_event(event);
        }
    }

    /// The commands for the terminal's next frame, on a terminal of size
    /// `size`: the farewell if the user has asked to leave, and else what
    /// the view paints, between hiding and showing the cursor.
    pub fn render(&mut self, size: Size) -> (commands: Vec<Command>)
        ensures
            final(self)@ == old(self)@.after_render(size),
            views(commands@) == old(self)@.render_commands(size),
    {
        let mut commands = Vec::new();
        commands.push(Command::HideCursor);
        let ghost head = commands@;
        let mut body = if self.should_quit {
            let mut farewell = Vec::new();
            farewell.push(Command::ClearScreen);
            farewell.push(Command::MoveCursorTo(Position { x: 0, y: 0 }));
            farewell.push(Command::Print("Goodbye.\r\n".to_owned()));
            assert(views(farewell@) == farewell_commands());
            farewell
        } else {
            self.view.render(size)
        };
        let ghost middle = body@;
        commands.append(&mut body);
        commands.push(Command::ShowCursor);
        commands.push(Command::Execute);
        assert(views(commands@) == views(head) + views(middle) + seq![
            CommandView::ShowCursor,
            CommandView::Execute,
        ]);
        assert(views(head) == seq![CommandView::HideCursor]);
        commands
    }
}

} // verus!
