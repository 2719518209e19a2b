use text_viewer::editor::Editor;
use text_viewer::event::{Event, KeyCode, KeyEvent, KeyEventKind, KeyModifiers};
use text_viewer::terminal::{Command, Position, Size};
use text_viewer::view::Location;

fn only_control() -> KeyModifiers {
    KeyModifiers { shift: false, control: true, alt: false, super_key: false, hyper: false, meta: false }
}

fn key(code: KeyCode, modifiers: KeyModifiers, kind: KeyEventKind) -> Event {
    Event::Key(KeyEvent { code, modifiers, kind })
}

#[test]
fn new_editor_is_empty_and_running() {
    let editor = Editor::new();
    assert!(!editor.should_quit);
    assert!(editor.view.buffer.lines.is_empty());
    assert_eq!(editor.view.buffer.path, "<empty file>");
    assert!(!editor.view.needs_redraw);
    assert_eq!(editor.view.current_size, Size { width: 0, height: 0 });
    assert_eq!(editor.view.cursor_location, Location { row: 0, col: 0 });
    assert_eq!(editor.view.scroll_offset, Location { row: 0, col: 0 });
}

#[test]
fn control_q_asks_to_leave() {
    let mut editor = Editor::new();
    editor.handle_event(&key(KeyCode::Char('q'), only_control(), KeyEventKind::Press));
    assert!(editor.should_quit);
    assert!(!editor.view.needs_redraw);
}

#[test]
fn control_only_means_no_other_modifier() {
    assert!(only_control().is_control_only());
    let none = KeyModifiers { control: false, ..only_control() };
    assert!(!none.is_control_only());
    assert!(!KeyModifiers { shift: true, ..only_control() }.is_control_only());
    assert!(!KeyModifiers { alt: true, ..only_control() }.is_control_only());
    assert!(!KeyModifiers { super_key: true, ..only_control() }.is_control_only());
    assert!(!KeyModifiers { hyper: true, ..only_control() }.is_control_only());
    assert!(!KeyModifiers { meta: true, ..only_control() }.is_control_only());
}

#[test]
fn other_keys_do_not_ask_to_leave() {
    let none = KeyModifiers { control: false, ..only_control() };
    let more = KeyModifiers { shift: true, ..only_control() };
    let events = [
        key(KeyCode::Char('q'), none, KeyEventKind::Press),
        key(KeyCode::Char('q'), more, KeyEventKind::Press),
        key(KeyCode::Char('q'), only_control(), KeyEventKind::Release),
        key(KeyCode::Char('q'), only_control(), KeyEventKind::Repeat),
        key(KeyCode::Char('Q'), only_control(), KeyEventKind::Press),
        key(KeyCode::Char('w'), only_control(), KeyEventKind::Press),
        key(KeyCode::Other, only_control(), KeyEventKind::Press),
        key(KeyCode::Down, only_control(), KeyEventKind::Press),
        Event::Resize(80, 24),
        Event::Other,
    ];
    for event in events {
        let mut editor = Editor::new();
        editor.handle_event(&event);
        assert!(!editor.should_quit, "{:?}", event);
    }
}

#[test]
fn editor_hands_other_events_to_the_view() {
    let mut editor = Editor::new();
    editor.view.load("a.txt".to_string(), Ok("abc\ndef\n".to_string())).unwrap();
    editor.handle_event(&Event::Resize(40, 10));
    assert_eq!(editor.view.current_size, Size { width: 40, height: 10 });
    let none = KeyModifiers { control: false, ..only_control() };
    editor.handle_event(&key(KeyCode::Down, none, KeyEventKind::Press));
    editor.handle_event(&key(KeyCode::End, none, KeyEventKind::Press));
    assert_eq!(editor.view.cursor_location, Location { row: 1, col: 2 });
    assert!(!editor.should_quit);
}

#[test]
fn quitting_stays_and_later_events_go_to_the_view() {
    let mut editor = Editor::new();
    editor.handle_event(&key(KeyCode::Char('q'), only_control(), KeyEventKind::Press));
    editor.handle_event(&Event::Resize(40, 10));
    assert!(editor.should_quit);
    assert_eq!(editor.view.current_size, Size { width: 40, height: 10 });
}

#[test]
fn editor_render_wraps_the_frame_of_the_view() {
    let mut editor = Editor::new();
    editor.view.load("a.txt".to_string(), Ok("abc\n".to_string())).unwrap();
    let commands = editor.render(Size { width: 20, height: 2 });
    assert_eq!(commands[0], Command::HideCursor);
    assert_eq!(commands[1], Command::MoveCursorTo(Position { x: 0, y: 0 }));
    assert_eq!(commands[2], Command::ClearLine);
    assert_eq!(commands[3], Command::Print("abc".to_string()));
    assert_eq!(commands[8], Command::Print("a.txt".to_string()));
    assert_eq!(commands[10], Command::Print("LINE 1 COL 1".to_string()));
    assert_eq!(commands.len(), 1 + 3 + 9 + 1 + 2);
    assert_eq!(commands[commands.len() - 3], Command::MoveCursorTo(Position { x: 0, y: 0 }));
    assert_eq!(commands[commands.len() - 2], Command::ShowCursor);
    assert_eq!(commands[commands.len() - 1], Command::Execute);
    assert!(!editor.view.needs_redraw);
}

#[test]
fn editor_render_of_an_up_to_date_screen_only_toggles_the_cursor() {
    let mut editor = Editor::new();
    let commands = editor.render(Size { width: 20, height: 5 });
    assert_eq!(commands, vec![Command::HideCursor, Command::ShowCursor, Command::Execute]);
    assert_eq!(editor.view.current_size, Size { width: 0, height: 0 });
}

#[test]
fn editor_render_takes_leave_when_asked_to() {
    let mut editor = Editor::new();
    editor.view.load("a.txt".to_string(), Ok("abc\n".to_string())).unwrap();
    editor.handle_event(&key(KeyCode::Char('q'), only_control(), KeyEventKind::Press));
    let commands = editor.render(Size { width: 20, height: 5 });
    assert_eq!(
        commands,
        vec![
            Command::HideCursor,
            Command::ClearScreen,
            Command::MoveCursorTo(Position { x: 0, y: 0 }),
            Command::Print("Goodbye.\r\n".to_string()),
            Command::ShowCursor,
            Command::Execute,
        ]
    );
    assert!(editor.view.needs_redraw);
    assert_eq!(editor.view.current_size, Size { width: 0, height: 0 });
}
