use editor::input::WindowInputEvent;
use editor::state::InputMode;
use editor::state::WindowState;

#[test]
fn new() {
    let state = WindowState::new();
    let (cx, cy) = state.cursor_position;

    assert_eq!(state.input_event_history.len(), 0);
    assert_eq!(cx, 0);
    assert_eq!(cy, 0);
}

#[test]
fn from_args_can_read_file() {
    let state = WindowState::from_file_text(String::from("./tests/fixtures/file.txt"), "a\nb\n");
    assert_ne!(state.content.len(), 0);
    assert_eq!(state.content, vec!["a", "b"]);
    assert_eq!(state.filename, "./tests/fixtures/file.txt");
}

#[test]
fn new_starts_clean_in_normal_mode() {
    let state = WindowState::new();
    assert_eq!(state.input_mode, InputMode::NormalMode);
    assert_eq!(state.command, "");
    assert_eq!(state.filename, "");
    assert_eq!(state.content.len(), 0);
    assert_eq!(state.dimensions, (1, 1));
    assert!(!state.has_content_changed);
    assert_eq!(state.statusline_format, "[{mode}] L: {line}, C: {column}");
}

#[test]
fn from_file_text_with_empty_text_keeps_the_path() {
    let state = WindowState::from_file_text(String::from("notes.txt"), "");
    assert_eq!(state.content.len(), 0);
    assert_eq!(state.filename, "notes.txt");
}

#[test]
fn last_content_line_reports_the_last_line() {
    let mut state = WindowState::new();
    assert_eq!(state.last_content_line(), None);
    assert_eq!(state.last_content_line_or("fallback"), "fallback");

    state.content.push(String::from("one"));
    state.content.push(String::from("two"));
    assert_eq!(state.last_content_line(), Some(&String::from("two")));
    assert_eq!(state.last_content_line_or("fallback"), "two");
}

#[test]
fn push_input_event_appends_to_the_history() {
    let mut state = WindowState::new();
    assert_eq!(state.last_input_event(), None);

    state.push_input_event(WindowInputEvent::NoOp);
    state.push_input_event(WindowInputEvent::Resize(4, 5));

    assert_eq!(state.input_event_history.len(), 2);
    assert_eq!(state.last_input_event(), Some(&WindowInputEvent::Resize(4, 5)));
}

#[test]
fn update_cursor_position_applies_the_transform() {
    let mut state = WindowState::new();
    state.cursor_position = (2, 7);
    state.update_cursor_position(|(x, y)| (x + 1, y - 1));
    assert_eq!(state.cursor_position, (3, 6));
}

#[test]
fn mark_saved_clears_the_dirty_flag_and_command() {
    let mut state = WindowState::new();
    state.has_content_changed = true;
    state.command = String::from("w");
    state.input_mode = InputMode::CommandMode;
    state.content.push(String::from("kept"));

    state.mark_saved();

    assert!(!state.has_content_changed);
    assert_eq!(state.command, "");
    assert_eq!(state.input_mode, InputMode::NormalMode);
    assert_eq!(state.content, vec!["kept"]);
}

#[test]
fn clone_keeps_cursor_dimensions_and_mode_only() {
    let mut state = WindowState::new();
    state.cursor_position = (3, 4);
    state.dimensions = (80, 24);
    state.input_mode = InputMode::InsertMode;
    state.content.push(String::from("text"));
    state.command = String::from("w");
    state.filename = String::from("f.txt");

    let copy = state.clone();

    assert_eq!(copy.cursor_position, (3, 4));
    assert_eq!(copy.dimensions, (80, 24));
    assert_eq!(copy.input_mode, InputMode::InsertMode);
    assert_eq!(copy.content.len(), 0);
    assert_eq!(copy.command, "");
    assert_eq!(copy.filename, "");
    assert_eq!(copy.input_event_history.len(), 0);
}
