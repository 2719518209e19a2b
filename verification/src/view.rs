//! The window on a buffer: where the cursor is, which part of the text is
//! shown, and how both follow the keys and the size of the terminal.

use crate::buffer::{last_line_index, line_length, lines_of, truncated, Buffer};
use crate::event::{Direction, Event, KeyEvent, KeyEventKind};
use crate::terminal::{views, Color, Command, CommandView, Position, Size};
use crate::text::{decimal, push_decimal};
use vstd::prelude::*;
use vstd::string::{StrSliceExecFns, StringExecFns};
use vstd::view::View as _;

verus! {

/// A place in the text: a line, and a column in that line.
#[derive(Debug, Clone, Copy, PartialEq, Eq, Structural)]
pub struct Location {
    pub row: usize,
    pub col: usize,
}

/// A place in the text as the contracts see it, with unbounded integers.
pub struct Point {
    pub row: int,
    pub col: int,
}

impl vstd::view::View for Location {
    type V = Point;

    open spec fn view(&self) -> Point {
        Point { row: self.row as int, col: self.col as int }
    }
}

impl Default for Location {
    fn default() -> (location: Self)
        ensures
            location == (Location { row: 0, col: 0 }),
    {
        Location { row: 0, col: 0 }
    }
}

/// The number of rows that show text: all but the one kept for the status
/// bar.
pub open spec fn usable_height(size: Size) -> int {
    if size.height > 1 {
        size.height - 1
    } else {
        0
    }
}

/// Whether a window of this size can show anything: a row of text above the
/// status bar, and a column.
pub open spec fn sufficient(size: Size) -> bool {
    size.height > 1 && size.width > 0
}

/// How far the cursor's row may lie below the first row shown: one less than
/// the number of rows that show text.
pub open spec fn row_span(size: Size) -> int {
    if size.height > 2 {
        size.height - 2
    } else {
        0
    }
}

/// Whether `place` is in the text: on a line that exists (on line 0 where
/// there is none), at a column that this line has.
pub open spec fn in_text(lines: Seq<Seq<char>>, place: Point) -> bool {
    &&& 0 <= place.row <= last_line_index(lines)
    &&& 0 <= place.col <= line_length(lines, place.row)
}

/// `place` brought back into the text: the column to the length of its line,
/// then the row to the last line.
pub open spec fn clamped(lines: Seq<Seq<char>>, place: Point) -> Point {
    Point {
        row: if place.row < last_line_index(lines) {
            place.row
        } else {
            last_line_index(lines)
        },
        col: if place.col < line_length(lines, place.row) {
            place.col
        } else {
            line_length(lines, place.row)
        },
    }
}

/// The place that a move aims at from `cursor`, before it is brought back
/// into the text.
pub open spec fn target(lines: Seq<Seq<char>>, cursor: Point, direction: Direction) -> Point {
    let Point { row, col } = cursor;
    match direction {
        Direction::Left => if col > 0 {
            Point { row, col: col - 1 }
        } else if row > 0 {
            Point { row: row - 1, col: line_length(lines, row - 1) }
        } else {
            cursor
        },
        Direction::Right => if col == line_length(lines, row) {
            Point { row: row + 1, col: 0 }
        } else {
            Point { row, col: col + 1 }
        },
        Direction::Up => if row > 0 {
            Point { row: row - 1, col }
        } else {
            cursor
        },
        Direction::Down => Point { row: row + 1, col },
        Direction::PageUp => Point { row: 0, col: 0 },
        Direction::PageDown => Point { row: last_line_index(lines), col: 0 },
        Direction::Home => Point { row, col: 0 },
        Direction::End => Point { row, col: line_length(lines, row) },
    }
}

/// Where a move takes the cursor.
pub open spec fn moved(lines: Seq<Seq<char>>, cursor: Point, direction: Direction) -> Point {
    clamped(lines, target(lines, cursor, direction))
}

/// The offset nearest to `offset` from which `target` is at most `span`
/// away: the offset moves only if the target lies before it or more than
/// `span` after it, and then no further than needed.
pub open spec fn pulled(offset: int, target: int, span: int) -> int {
    if offset > target {
        target
    } else if target > offset + span {
        target - span
    } else {
        offset
    }
}

/// The scroll offset after it has followed the cursor.
pub open spec fn scrolled(scroll: Point, cursor: Point, size: Size) -> Point {
    Point {
        row: pulled(scroll.row, cursor.row, row_span(size)),
        col: pulled(scroll.col, cursor.col, size.width as int),
    }
}

/// The commands that paint `text` in row `y` of the terminal.
pub open spec fn line_commands(y: u16, text: Seq<char>) -> Seq<CommandView> {
    seq![
        CommandView::MoveCursorTo(Position { x: 0, y }),
        CommandView::ClearLine,
        CommandView::Print(text),
    ]
}

/// How far `place` lies after `offset`, as a coordinate of the terminal: 0
/// where it lies before it, and cut to 16 bits.
pub open spec fn screen_distance(place: int, offset: int) -> u16 {
    if place > offset {
        ((place - offset) % 0x10000) as u16
    } else {
        0
    }
}

/// The state of a `View` as the contracts see it.
pub struct ViewModel {
    /// The lines of the text.
    pub lines: Seq<Seq<char>>,
    /// The name that the text goes by.
    pub path: Seq<char>,
    /// Whether the screen is out of date.
    pub needs_redraw: bool,
    /// The size of the terminal, as last known.
    pub size: Size,
    /// Where the cursor is.
    pub cursor: Point,
    /// The place in the text that the top left cell of the terminal shows.
    pub scroll: Point,
}

impl ViewModel {
    /// No coordinate is negative.
    pub open spec fn valid(self) -> bool {
        self.cursor.row >= 0 && self.cursor.col >= 0 && self.scroll.row >= 0 && self.scroll.col
            >= 0
    }

    /// The cursor is in the text.
    pub open spec fn cursor_clamped(self) -> bool {
        in_text(self.lines, self.cursor)
    }

    /// The window reaches the cursor: the cursor is not before the scroll
    /// offset, and at most the span of the window after it.
    pub open spec fn cursor_in_view(self) -> bool {
        &&& self.scroll.row <= self.cursor.row <= self.scroll.row + row_span(self.size)
        &&& self.scroll.col <= self.cursor.col <= self.scroll.col + self.size.width
    }

    /// This state with the cursor brought back into the text and the window
    /// pulled after it.
    pub open spec fn settled(self) -> ViewModel {
        let cursor = clamped(self.lines, self.cursor);
        ViewModel { cursor, scroll: scrolled(self.scroll, cursor, self.size), ..self }
    }

    /// The state after a move of the cursor.
    pub open spec fn after_move(self, direction: Direction) -> ViewModel {
        (ViewModel {
            cursor: target(self.lines, self.cursor, direction),
            needs_redraw: true,
            ..self
        }).settled()
    }

    /// The state after the terminal took a new size.
    pub open spec fn after_resize(self, width: u16, height: u16) -> ViewModel {
        (ViewModel { size: Size { width, height }, needs_redraw: true, ..self }).settled()
    }

    /// The state after a key event: the press of a navigation key moves the
    /// cursor, and any other key event changes nothing.
    pub open spec fn after_key(self, key_event: KeyEvent) -> ViewModel {
        if key_event.kind == KeyEventKind::Press && key_event.code.direction() is Some {
            self.after_move(key_event.code.direction()->Some_0)
        } else {
            self
        }
    }

    /// The state after an event.
    pub open spec fn after_event(self, event: Event) -> ViewModel {
        match event {
            Event::Key(key_event) => self.after_key(key_event),
            Event::Resize(width, height) => self.after_resize(width, height),
            Event::Other => self,
        }
    }

    /// The state after another text was loaded: the cursor keeps its place as
    /// far as the new text has it.
    pub open spec fn after_load(self, lines: Seq<Seq<char>>, path: Seq<char>) -> ViewModel {
        (ViewModel { lines, path, needs_redraw: true, ..self }).settled()
    }

    /// The text that row `y` of the terminal shows: the part of its line that
    /// is in the window, and a tilde below the last line.
    pub open spec fn row_text(self, y: int) -> Seq<char> {
        let row = self.scroll.row + y;
        if 0 <= row < self.lines.len() {
            truncated(self.lines[row], self.scroll.col, self.size.width as int)
        } else {
            seq!['~']
        }
    }

    /// The commands that paint the first `rows` rows of the terminal, from
    /// the top down.
    pub open spec fn buffer_commands(self, rows: nat) -> Seq<CommandView>
        decreases rows,
    {
        if rows == 0 {
            Seq::empty()
        } else {
            self.buffer_commands((rows - 1) as nat) + line_commands(
                (rows - 1) as u16,
                self.row_text(rows - 1),
            )
        }
    }

    /// What the status bar says of the cursor: its line and its column,
    /// counted from 1.
    pub open spec fn indicator(self) -> Seq<char> {
        "LINE "@ + decimal((self.cursor.row + 1) as nat) + " COL "@ + decimal(
            (self.cursor.col + 1) as nat,
        )
    }

    /// The commands that paint the status bar, in the row below the text and
    /// in inverted colors: the name of the text at the left, the cursor's
    /// place at the right.
    pub open spec fn status_commands(self) -> Seq<CommandView> {
        let y = usable_height(self.size) as u16;
        let x = if self.indicator().len() < self.size.width {
            (self.size.width - self.indicator().len()) as u16
        } else {
            0
        };
        seq![
            CommandView::MoveCursorTo(Position { x: 0, y }),
            CommandView::SetForegroundColor(Color::Black),
            CommandView::SetBackgroundColor(Color::White),
            CommandView::ClearLine,
            CommandView::Print(self.path),
            CommandView::MoveCursorTo(Position { x, y }),
            CommandView::Print(self.indicator()),
            CommandView::SetForegroundColor(Color::White),
            CommandView::SetBackgroundColor(Color::Black),
        ]
    }

    /// The cell of the terminal that shows the cursor.
    pub open spec fn relative_cursor(self) -> Position {
        Position {
            x: screen_distance(self.cursor.col, self.scroll.col),
            y: screen_distance(self.cursor.row, self.scroll.row),
        }
    }

    /// The commands that paint the whole screen: the rows of text, the status
    /// bar, and the cursor.
    pub open spec fn frame(self) -> Seq<CommandView> {
        self.buffer_commands(usable_height(self.size) as nat) + self.status_commands()
            + seq![CommandView::MoveCursorTo(self.relative_cursor())]
    }

    /// The state in which a render with a terminal of size `size` paints.
    pub open spec fn ready(self, size: Size) -> ViewModel {
        (ViewModel { size, ..self }).settled()
    }

    /// The state after a render with a terminal of size `size`. An up-to-date
    /// screen is left alone. Else the size is taken and the window pulled
    /// after the cursor, and the screen is up to date if the terminal is
    /// large enough to paint on.
    pub open spec fn after_render(self, size: Size) -> ViewModel {
        if self.needs_redraw {
            ViewModel { needs_redraw: !sufficient(size), ..self.ready(size) }
        } else {
            self
        }
    }

    /// The commands that a render with a terminal of size `size` gives:
    /// a frame if the screen is out of date and the terminal large enough,
    /// and none otherwise.
    pub open spec fn render_commands(self, size: Size) -> Seq<CommandView> {
        if self.needs_redraw && sufficient(size) {
            self.ready(size).frame()
        } else {
            Seq::empty()
        }
    }
}

/// The state of the viewer: the text, the size of the terminal as last
/// known, the cursor, the offset of the window's top left corner, and whether
/// the screen is out of date.
#[derive(Debug)]
pub struct View {
    pub buffer: Buffer,
    pub needs_redraw: bool,
    pub current_size: Size,
    pub cursor_location: Location,
    pub scroll_offset: Location,
}

impl vstd::view::View for View {
    type V = ViewModel;

    open spec fn view(&self) -> ViewModel {
        ViewModel {
            lines: self.buffer@,
            path: self.buffer.path@,
            needs_redraw: self.needs_redraw,
            size: self.current_size,
            cursor: self.cursor_location@,
            scroll: self.scroll_offset@,
        }
    }
}

impl Default for View {
    /// A view on an empty buffer, cursor and window at the origin, with a
    /// terminal of no size and nothing to redraw.
    fn default() -> (view: Self)
        ensures
            view@ == (ViewModel {
                lines: Seq::empty(),
                path: "<empty file>"@,
                needs_redraw: false,
                size: Size { width: 0, height: 0 },
                cursor: Point { row: 0, col: 0 },
                scroll: Point { row: 0, col: 0 },
            }),
    {
        View {
            buffer: Buffer::default(),
            needs_redraw: false,
            current_size: Size::default(),
            cursor_location: Location::default(),
            scroll_offset: Location::default(),
        }
    }
}

/// The commands that paint `line_text` in row `pos_y` of the terminal: go to
/// the start of the row, clear it, print the text.
pub fn render_line(pos_y: u16, line_text: &str) -> (commands: Vec<Command>)
    ensures
        views(commands@) == line_commands(pos_y, line_text@),
{
    let mut commands = Vec::new();
    commands.push(Command::MoveCursorTo(Position { x: 0, y: pos_y }));
    commands.push(Command::ClearLine);
    commands.push(Command::Print(line_text.to_owned()));
    assert(views(commands@) == line_commands(pos_y, line_text@));
    commands
}

impl View {
    /// Whether the window can show anything.
    pub fn is_of_sufficient_size(&self) -> (res: bool)
        ensures
            res == sufficient(self@.size),
    {
        self.current_size.height > 1 && self.current_size.width > 0
    }

    /// The number of rows that show text.
    pub fn buffer_height(&self) -> (height: u16)
        ensures
            height == usable_height(self@.size),
    {
        self.current_size.height.saturating_sub(1)
    }

    /// Pulls the window after the cursor: up or left to the cursor where the
    /// cursor is before it, down or right by as much as the cursor is beyond
    /// its span. A window that reaches the cursor stays where it is.
    pub fn update_scroll(&mut self)
        ensures
            final(self)@ == (ViewModel {
                scroll: scrolled(old(self)@.scroll, old(self)@.cursor, old(self)@.size),
                ..old(self)@
            }),
            final(self)@.cursor_in_view(),
            old(self)@.cursor_in_view() ==> final(self)@ == old(self)@,
    {
        if self.scroll_offset.row > self.cursor_location.row {
            self.scroll_offset.row = self.cursor_location.row;
        }
        let span: usize = self.buffer_height().saturating_sub(1) as usize;
        let view_end_row = self.scroll_offset.row.saturating_add(span);
        if self.cursor_location.row > view_end_row {
            let offset = self.cursor_location.row - view_end_row;
            self.scroll_offset.row = self.scroll_offset.row + offset;
        }
        if self.scroll_offset.col > self.cursor_location.col {
            self.scroll_offset.col = self.cursor_location.col;
        }
        let view_end_col = self.scroll_offset.col.saturating_add(self.current_size.width as usize);
        if self.cursor_location.col > view_end_col {
            let offset = self.cursor_location.col - view_end_col;
            self.scroll_offset.col = self.scroll_offset.col + offset;
        }
    }

    /// Brings the cursor back into the text, the column first, and pulls the
    /// window after it.
    pub fn settle(&mut self)
        ensures
            final(self)@ == old(self)@.settled(),
            final(self)@.cursor_clamped(),
            final(self)@.cursor_in_view(),
    {
        let length = self.buffer.get_line_length(self.cursor_location.row);
        if self.cursor_location.col > length {
            self.cursor_location.col = length;
        }
        let last = self.buffer.get_last_line_index();
        if self.cursor_location.row > last {
            self.cursor_location.row = last;
        }
        self.update_scroll();
    }

    /// Moves the cursor. Left and right step through the text and pass from
    /// one line to the next; up and down change the line; the page keys go to
    /// the first and to the last line, home and end to the ends of the line.
    /// The cursor stays in the text, the window follows it, and the screen is
    /// out of date.
    pub fn move_cursor(&mut self, direction: Direction)
        ensures
            final(self)@ == old(self)@.after_move(direction),
            final(self)@.cursor_clamped(),
            final(self)@.cursor_in_view(),
    {
        let Location { row, col } = self.cursor_location;
        proof {
            crate::buffer::lemma_line_count_fits(&self.buffer);
        }
        match direction {
            Direction::Left => {
                if col > 0 {
                    self.cursor_location.col = col - 1;
                } else if row > 0 {
                    self.cursor_location.row = row - 1;
                    self.cursor_location.col = self.buffer.get_line_length(row - 1);
                }
            },
            Direction::Right => {
                if col == self.buffer.get_line_length(row) {
                    self.cursor_location.row = row.saturating_add(1);
                    self.cursor_location.col = 0;
                } else {
                    self.cursor_location.col = col.saturating_add(1);
                }
            },
            Direction::Up => {
                self.cursor_location.row = row.saturating_sub(1);
            },
            Direction::Down => {
                self.cursor_location.row = row.saturating_add(1);
            },
            Direction::PageUp => {
                self.cursor_location = Location { row: 0, col: 0 };
            },
            Direction::PageDown => {
                self.cursor_location = Location { row: self.buffer.get_last_line_index(), col: 0 };
            },
            Direction::Home => {
                self.cursor_location.col = 0;
            },
            Direction::End => {
                self.cursor_location.col = self.buffer.get_line_length(row);
            },
        }
        self.needs_redraw = true;
        self.settle();
    }

    /// Takes the new size of the terminal, and marks the screen as out of
    /// date. The cursor stays in the text and the window follows it.
    pub fn handle_resize_event(&mut self, width: u16, height: u16)
        ensures
            final(self)@ == old(self)@.after_resize(width, height),
            final(self)@.cursor_clamped(),
            final(self)@.cursor_in_view(),
    {
        self.current_size = Size { width, height };
        self.needs_redraw = true;
        self.settle();
    }

    /// Takes a key event: the press of a navigation key moves the cursor,
    /// and any other key event changes nothing.
    pub fn handle_key_event(&mut self, key_event: &KeyEvent)
        ensures
            final(self)@ == old(self)@.after_key(*key_event),
            *final(self) == *old(self) || final(self)@.cursor_clamped(),
            *final(self) == *old(self) || final(self)@.cursor_in_view(),
    {
        if key_event.kind != KeyEventKind::Press {
            return ;
        }
        match key_event.code.to_direction() {
            Some(direction) => self.move_cursor(direction),
            None => {},
        }
    }

    /// Takes an event from the terminal: a key event or a new size. Any
    /// other event changes nothing.
    pub fn handle_event(&mut self, event: &Event)
        ensures
            final(self)@ == old(self)@.after_event(*event),
            *final(self) == *old(self) || final(self)@.cursor_clamped(),
            *final(self) == *old(self) || final(self)@.cursor_in_view(),
    {
        match event {
            Event::Key(key_event) => self.handle_key_event(key_event),
            Event::Resize(width, height) => self.handle_resize_event(*width, *height),
            Event::Other => {},
        }
    }

    /// Takes the outcome of reading the file at `path`. Where the read gave
    /// the file's text, its lines replace the buffer, the cursor keeps its
    /// place as far as the new text has it, and the screen is out of date.
    /// Where the read failed, its error is handed back and nothing changes.
    pub fn load(&mut self, path: String, read: Result<String, std::io::Error>) -> (res: Result<
        (),
        std::io::Error,
    >)
        ensures
            match read {
                Ok(text) => {
                    &&& res is Ok
                    &&& final(self)@ == old(self)@.after_load(lines_of(text@), path@)
                    &&& final(self)@.cursor_clamped()
                    &&& final(self)@.cursor_in_view()
                },
                Err(error) => res is Err && res->Err_0 == error && *final(self) == *old(self),
            },
    {
        match Buffer::from_path(path, read) {
            Ok(buffer) => {
                self.buffer = buffer;
                self.needs_redraw = true;
                self.settle();
                Ok(())
            },
            Err(error) => Err(error),
        }
    }

    /// The commands that paint the rows of text, from the top down: each row
    /// shows the part of its line that is in the window, and a tilde where
    /// the text has no such line.
    pub fn render_buffer(&self) -> (commands: Vec<Command>)
        ensures
            views(commands@) == self@.buffer_commands(usable_height(self@.size) as nat),
    {
        let mut commands: Vec<Command> = Vec::new();
        let height = self.buffer_height();
        let mut pos_y: u16 = 0;
        proof {
            crate::buffer::lemma_line_count_fits(&self.buffer);
        }
        assert(views(commands@) == self@.buffer_commands(0));
        while pos_y < height
            invariant
                pos_y <= height,
                self@.lines.len() <= usize::MAX,
                views(commands@) == self@.buffer_commands(pos_y as nat),
            decreases height - pos_y,
        {
            let ghost before = commands@;
            let row = self.scroll_offset.row.checked_add(pos_y as usize);
            let text = match row {
                Some(row) => self.buffer.get_truncated_line(
                    row,
                    self.scroll_offset.col,
                    self.current_size.width as usize,
                ),
                None => None,
            };
            let mut line = match text {
                Some(text) => render_line(pos_y, text),
                None => {
                    proof {
                        reveal_strlit("~");
                    }
                    assert("~"@ == seq!['~']);
                    render_line(pos_y, "~")
                },
            };
            assert(views(line@) == line_commands(pos_y, self@.row_text(pos_y as int)));
            commands.append(&mut line);
            assert(views(commands@) == views(before) + line_commands(
                pos_y,
                self@.row_text(pos_y as int),
            ));
            pos_y += 1;
        }
        commands
    }

    /// The commands that paint the status bar.
    pub fn render_status_bar(&self) -> (commands: Vec<Command>)
        ensures
            views(commands@) == self@.status_commands(),
    {
        let y = self.buffer_height();
        let width = self.current_size.width;
        let mut current_location = "LINE ".to_owned();
        push_decimal(&mut current_location, self.cursor_location.row as u128 + 1);
        current_location.append(" COL ");
        push_decimal(&mut current_location, self.cursor_location.col as u128 + 1);
        assert(current_location@ == self@.indicator());
        let length = current_location.as_str().unicode_len();
        let x: u16 = if length < width as usize {
            width - length as u16
        } else {
            0
        };
        let mut commands = Vec::new();
        commands.push(Command::MoveCursorTo(Position { x: 0, y }));
        commands.push(Command::SetForegroundColor(Color::Black));
        commands.push(Command::SetBackgroundColor(Color::White));
        commands.push(Command::ClearLine);
        commands.push(Command::Print(self.buffer.path.clone()));
        commands.push(Command::MoveCursorTo(Position { x, y }));
        commands.push(Command::Print(current_location));
        commands.push(Command::SetForegroundColor(Color::White));
        commands.push(Command::SetBackgroundColor(Color::Black));
        assert(views(commands@) == self@.status_commands());
        commands
    }

    /// The cell of the terminal that shows the cursor.
    pub fn get_relative_cursor_position(&self) -> (position: Position)
        ensures
            position == self@.relative_cursor(),
            self@.cursor_in_view() ==> position.x == self@.cursor.col - self@.scroll.col
                && position.y == self@.cursor.row - self@.scroll.row,
    {
        let right = self.cursor_location.col.saturating_sub(self.scroll_offset.col);
        let down = self.cursor_location.row.saturating_sub(self.scroll_offset.row);
        Position { x: (right % 0x10000) as u16, y: (down % 0x10000) as u16 }
    }

    /// Paints the screen if it is out of date, on a terminal of size `size`.
    /// On an up-to-date screen nothing is done. Else the size is taken and
    /// the window pulled after the cursor; then, if the terminal is large
    /// enough, the commands for a full frame are handed back and the screen
    /// counts as up to date. On a terminal too small to paint on there are no
    /// commands, and the screen stays out of date.
    pub fn render(&mut self, size: Size) -> (commands: Vec<Command>)
        ensures
            final(self)@ == old(self)@.after_render(size),
            views(commands@) == old(self)@.render_commands(size),
            !old(self).needs_redraw ==> *final(self) == *old(self),
            old(self).needs_redraw ==> final(self)@.cursor_clamped(),
            old(self).needs_redraw ==> final(self)@.cursor_in_view(),
    {
        if !self.needs_redraw {
            let commands = Vec::new();
            assert(views(commands@) == Seq::<CommandView>::empty());
            return commands;
        }
        self.current_size = size;
        self.settle();
        if !self.is_of_sufficient_size() {
            let commands = Vec::new();
            assert(views(commands@) == Seq::<CommandView>::empty());
            return commands;
        }
        let mut commands = self.render_buffer();
        let mut status = self.render_status_bar();
        let ghost rows = commands@;
        let ghost bar = status@;
        commands.append(&mut status);
        let position = self.get_relative_cursor_position();
        commands.push(Command::MoveCursorTo(position));
        assert(views(commands@) == views(rows) + views(bar) + seq![
            CommandView::MoveCursorTo(position),
        ]);
        self.needs_redraw = false;
        commands
    }
}

/// Bringing the cursor back into the text and pulling the window after it
/// leaves the cursor in the text and within reach of the window, and a second
/// time changes nothing.
pub proof fn lemma_settled(state: ViewModel)
    requires
        state.valid(),
    ensures
        state.settled().valid(),
        state.settled().cursor_clamped(),
        state.settled().cursor_in_view(),
        state.settled().settled() == state.settled(),
{
}

/// After a move, a new size or a load the cursor is in the text: on a line
/// that the text has (on line 0 where it has none), at a column that this
/// line has.
pub proof fn lemma_cursor_stays_in_text(
    state: ViewModel,
    direction: Direction,
    width: u16,
    height: u16,
    lines: Seq<Seq<char>>,
    path: Seq<char>,
)
    requires
        state.valid(),
    ensures
        state.after_move(direction).cursor_clamped(),
        state.after_resize(width, height).cursor_clamped(),
        state.after_load(lines, path).cursor_clamped(),
        state.after_move(direction).valid(),
        state.after_resize(width, height).valid(),
        state.after_load(lines, path).valid(),
{
}

/// An event leaves the cursor in the text if it was there.
pub proof fn lemma_event_keeps_cursor_in_text(state: ViewModel, event: Event)
    requires
        state.valid(),
        state.cursor_clamped(),
    ensures
        state.after_event(event).valid(),
        state.after_event(event).cursor_clamped(),
{
}

/// After a move, a new size or a load the window reaches the cursor.
pub proof fn lemma_cursor_stays_in_view(
    state: ViewModel,
    direction: Direction,
    width: u16,
    height: u16,
    lines: Seq<Seq<char>>,
    path: Seq<char>,
)
    requires
        state.valid(),
    ensures
        state.after_move(direction).cursor_in_view(),
        state.after_resize(width, height).cursor_in_view(),
        state.after_load(lines, path).cursor_in_view(),
{
}

/// Where the window reaches the cursor and the terminal has a row for text,
/// the cursor's row is one of the rows shown, and its column is not left of
/// the columns shown and at most one column right of them.
pub proof fn lemma_in_view_is_on_screen(state: ViewModel)
    requires
        state.cursor_in_view(),
        usable_height(state.size) > 0,
    ensures
        state.scroll.row <= state.cursor.row < state.scroll.row + usable_height(state.size),
        state.scroll.col <= state.cursor.col <= state.scroll.col + state.size.width,
{
}

/// After the cursor was brought back into the text and the window pulled
/// after it, on a terminal large enough to paint on: the cursor's row is one
/// of the rows shown. Its column is not left of the columns shown; it is one
/// of them unless the cursor stood at or beyond the column that follows them,
/// for the window goes right only as far as to have the cursor in that
/// column.
pub proof fn lemma_settled_shows_cursor(state: ViewModel)
    requires
        state.valid(),
        sufficient(state.size),
    ensures
        ({
            let after = state.settled();
            &&& after.scroll.row <= after.cursor.row < after.scroll.row + usable_height(
                after.size,
            )
            &&& after.scroll.col <= after.cursor.col <= after.scroll.col + after.size.width
            &&& after.cursor.col < after.scroll.col + after.size.width <==> after.cursor.col
                < state.scroll.col + state.size.width
        }),
{
}

/// From a place in the text that is not its end, a move right and then a
/// move left lead back to that place. At the end of the text a move right
/// leads to the start of the last line.
pub proof fn lemma_right_then_left(lines: Seq<Seq<char>>, cursor: Point)
    requires
        in_text(lines, cursor),
    ensures
        !(cursor.row == last_line_index(lines) && cursor.col == line_length(lines, cursor.row))
            ==> moved(lines, moved(lines, cursor, Direction::Right), Direction::Left) == cursor,
        cursor.row == last_line_index(lines) && cursor.col == line_length(lines, cursor.row)
            ==> moved(lines, cursor, Direction::Right) == (Point { row: cursor.row, col: 0 }),
{
}

/// From a place in the text that is not its start, a move left and then a
/// move right lead back to that place. At the start of the text a move left
/// changes nothing.
pub proof fn lemma_left_then_right(lines: Seq<Seq<char>>, cursor: Point)
    requires
        in_text(lines, cursor),
    ensures
        !(cursor.row == 0 && cursor.col == 0) ==> moved(
            lines,
            moved(lines, cursor, Direction::Left),
            Direction::Right,
        ) == cursor,
        cursor.row == 0 && cursor.col == 0 ==> moved(lines, cursor, Direction::Left) == cursor,
{
}

/// A render directly after a render paints nothing and changes nothing:
/// with a terminal of any size once the screen is up to date, and with a
/// terminal of the same size in any case.
pub proof fn lemma_render_twice(state: ViewModel, size: Size, next_size: Size)
    requires
        state.valid(),
    ensures
        ({
            let once = state.after_render(size);
            &&& !once.needs_redraw ==> once.after_render(next_size) == once
                && once.render_commands(next_size) == Seq::<CommandView>::empty()
            &&& once.after_render(size) == once
            &&& once.render_commands(size) == Seq::<CommandView>::empty()
        }),
{
}

} // verus!
