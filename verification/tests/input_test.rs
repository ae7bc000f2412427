use editor::input::handle_window_input;
use editor::input::main_loop_action;
use editor::input::KeyCode;
use editor::input::KeyEvent;
use editor::input::LoopAction;
use editor::input::MouseEvent;
use editor::input::MouseKind;
use editor::input::WindowInputEvent;
use editor::state::InputMode;
use editor::state::WindowState;

fn press(code: KeyCode) -> WindowInputEvent {
    WindowInputEvent::KeyPress(KeyEvent {
        code,
        modifiers: 0,
    })
}

#[test]
fn handle_window_input_updates_key_event_with_escape_to_exit_insert_command_modes() {
    let key = KeyEvent {
        code: KeyCode::Esc,
        modifiers: 0,
    };
    let event = WindowInputEvent::KeyPress(key);
    let mut state = WindowState::new();

    assert_eq!(WindowInputEvent::KeyPress(key), event);

    state.input_mode = InputMode::InsertMode;

    assert_eq!(
        WindowInputEvent::ChangeMode(InputMode::InsertMode, InputMode::NormalMode),
        handle_window_input(&mut state, event)
    );

    state.input_mode = InputMode::CommandMode;

    assert_eq!(
        WindowInputEvent::ChangeMode(InputMode::CommandMode, InputMode::NormalMode),
        handle_window_input(&mut state, event)
    );
}

#[test]
fn handle_window_input_updates_key_event_with_enter_on_q_command() {
    let key = KeyEvent {
        code: KeyCode::Enter,
        modifiers: 0,
    };
    let event = WindowInputEvent::KeyPress(key);
    let mut state = WindowState::new();
    state.input_mode = InputMode::CommandMode;
    state.command = String::from("q");

    assert_eq!(WindowInputEvent::KeyPress(key), event);
    assert_eq!(
        WindowInputEvent::Exit,
        handle_window_input(&mut state, event)
    );
}

#[test]
fn quit_command_exits_even_when_dirty() {
    let mut state = WindowState::new();
    state.has_content_changed = true;

    handle_window_input(&mut state, press(KeyCode::Char(':')));
    assert_eq!(state.input_mode, InputMode::CommandMode);
    handle_window_input(&mut state, press(KeyCode::Char('q')));
    assert_eq!(
        WindowInputEvent::Exit,
        handle_window_input(&mut state, press(KeyCode::Enter))
    );
}

#[test]
fn write_command_fires_only_when_dirty() {
    let mut state = WindowState::new();
    state.has_content_changed = true;
    handle_window_input(&mut state, press(KeyCode::Char(':')));
    handle_window_input(&mut state, press(KeyCode::Char('w')));
    assert_eq!(
        WindowInputEvent::WriteFile,
        handle_window_input(&mut state, press(KeyCode::Enter))
    );

    let mut clean = WindowState::new();
    handle_window_input(&mut clean, press(KeyCode::Char(':')));
    handle_window_input(&mut clean, press(KeyCode::Char('w')));
    assert_eq!(
        WindowInputEvent::ChangeMode(InputMode::CommandMode, InputMode::NormalMode),
        handle_window_input(&mut clean, press(KeyCode::Enter))
    );
    assert_eq!(clean.input_mode, InputMode::NormalMode);
    assert_eq!(clean.command, "");
}

#[test]
fn escape_in_command_mode_clears_command_buffer() {
    let mut state = WindowState::new();
    handle_window_input(&mut state, press(KeyCode::Char(':')));
    handle_window_input(&mut state, press(KeyCode::Char('x')));
    assert_eq!(state.command, "x");
    handle_window_input(&mut state, press(KeyCode::Esc));
    assert_eq!(state.command, "");
    assert_eq!(state.input_mode, InputMode::NormalMode);
}

#[test]
fn resize_updates_viewport_and_nothing_else() {
    let mut state = WindowState::new();
    state.content.push(String::from("abc"));
    state.cursor_position = (3, 0);

    let out = handle_window_input(&mut state, WindowInputEvent::Resize(120, 40));

    assert_eq!(out, WindowInputEvent::Resize(120, 40));
    assert_eq!(state.dimensions, (120, 40));
    assert_eq!(state.cursor_position, (3, 0));
    assert_eq!(state.content, vec!["abc"]);
    assert_eq!(state.input_mode, InputMode::NormalMode);
}

#[test]
fn mouse_events_are_recorded_and_ignored() {
    let mut state = WindowState::new();
    let mouse = WindowInputEvent::Mouse(MouseEvent {
        kind: MouseKind::ScrollDown,
        column: 1,
        row: 1,
    });

    let out = handle_window_input(&mut state, mouse);

    assert_eq!(out, mouse);
    assert_eq!(state.last_input_event(), Some(&mouse));
    assert_eq!(state.content.len(), 0);
    assert_eq!(state.cursor_position, (0, 0));
}

#[test]
fn insert_scenario_types_abc_then_saves() {
    let mut state = WindowState::new();

    handle_window_input(&mut state, press(KeyCode::Char('i')));
    assert_eq!(state.input_mode, InputMode::InsertMode);

    handle_window_input(&mut state, press(KeyCode::Char('a')));
    handle_window_input(&mut state, press(KeyCode::Char('b')));
    handle_window_input(&mut state, press(KeyCode::Char('c')));
    assert_eq!(state.content, vec!["abc"]);
    assert_eq!(state.cursor_position, (3, 0));
    assert!(state.has_content_changed);

    handle_window_input(&mut state, press(KeyCode::Esc));
    assert_eq!(state.input_mode, InputMode::NormalMode);

    handle_window_input(&mut state, press(KeyCode::Char(':')));
    handle_window_input(&mut state, press(KeyCode::Char('w')));
    let out = handle_window_input(&mut state, press(KeyCode::Enter));
    assert_eq!(out, WindowInputEvent::WriteFile);
    assert_eq!(editor::text::join_lines(&state.content), "abc\n");
}

#[test]
fn left_at_column_zero_stays_clamped() {
    let mut state = WindowState::new();
    assert_eq!(state.cursor_position, (0, 0));

    handle_window_input(&mut state, press(KeyCode::Char('h')));

    assert_eq!(state.cursor_position, (0, 0));
    assert_eq!(state.input_mode, InputMode::NormalMode);
}

#[test]
fn movement_keys_move_and_clamp() {
    let mut state = WindowState::new();
    state.content.push(String::from("ab"));
    state.content.push(String::from("c"));

    handle_window_input(&mut state, press(KeyCode::Char('j')));
    assert_eq!(state.cursor_position, (0, 1));
    handle_window_input(&mut state, press(KeyCode::Char('j')));
    assert_eq!(state.cursor_position, (0, 1));
    handle_window_input(&mut state, press(KeyCode::Char('l')));
    assert_eq!(state.cursor_position, (1, 1));
    handle_window_input(&mut state, press(KeyCode::Char('l')));
    assert_eq!(state.cursor_position, (1, 1));
    handle_window_input(&mut state, press(KeyCode::Char('k')));
    handle_window_input(&mut state, press(KeyCode::Char('k')));
    assert_eq!(state.cursor_position, (1, 0));
    handle_window_input(&mut state, press(KeyCode::Char('h')));
    handle_window_input(&mut state, press(KeyCode::Char('h')));
    assert_eq!(state.cursor_position, (0, 0));
}

#[test]
fn movement_in_an_empty_buffer_stays_at_the_origin() {
    let mut state = WindowState::new();
    handle_window_input(&mut state, press(KeyCode::Char('j')));
    handle_window_input(&mut state, press(KeyCode::Char('l')));
    assert_eq!(state.cursor_position, (0, 0));
}

#[test]
fn enter_in_insert_mode_appends_empty_line() {
    let mut state = WindowState::new();
    handle_window_input(&mut state, press(KeyCode::Char('i')));
    handle_window_input(&mut state, press(KeyCode::Char('a')));
    handle_window_input(&mut state, press(KeyCode::Enter));

    assert_eq!(state.content, vec!["a", ""]);
    assert_eq!(state.cursor_position, (0, 1));
    assert!(state.has_content_changed);
}

#[test]
fn escape_in_normal_mode_requests_exit() {
    let mut state = WindowState::new();
    assert_eq!(
        WindowInputEvent::Exit,
        handle_window_input(&mut state, press(KeyCode::Esc))
    );
}

#[test]
fn every_event_lands_in_the_history() {
    let mut state = WindowState::new();
    handle_window_input(&mut state, WindowInputEvent::NoOp);
    handle_window_input(&mut state, press(KeyCode::Char('i')));
    handle_window_input(&mut state, WindowInputEvent::Resize(2, 2));
    assert_eq!(state.input_event_history.len(), 3);
    assert_eq!(state.input_event_history[0], WindowInputEvent::NoOp);
    assert_eq!(state.last_input_event(), Some(&WindowInputEvent::Resize(2, 2)));
}

#[test]
fn unknown_command_returns_to_normal_mode() {
    let mut state = WindowState::new();
    handle_window_input(&mut state, press(KeyCode::Char(':')));
    handle_window_input(&mut state, press(KeyCode::Char('z')));
    let out = handle_window_input(&mut state, press(KeyCode::Enter));
    assert_eq!(
        out,
        WindowInputEvent::ChangeMode(InputMode::CommandMode, InputMode::NormalMode)
    );
    assert_eq!(state.input_mode, InputMode::NormalMode);
    assert_eq!(state.command, "");
}

#[test]
fn insert_column_saturates_at_the_coordinate_maximum() {
    let mut state = WindowState::new();
    state.input_mode = InputMode::InsertMode;
    state.cursor_position = (u16::MAX, 0);
    handle_window_input(&mut state, press(KeyCode::Char('z')));
    assert_eq!(state.cursor_position, (u16::MAX, 0));
    assert_eq!(state.content, vec!["z"]);
}

#[test]
fn other_key_in_insert_mode_leaves_state_unchanged() {
    let mut state = WindowState::new();
    handle_window_input(&mut state, press(KeyCode::Char('i')));
    let out = handle_window_input(&mut state, press(KeyCode::Other));
    assert_eq!(out, press(KeyCode::Other));
    assert_eq!(state.content.len(), 0);
    assert_eq!(state.cursor_position, (0, 0));
    assert!(!state.has_content_changed);
    assert_eq!(state.input_mode, InputMode::InsertMode);
    assert_eq!(state.input_event_history.len(), 2);
}

#[test]
fn main_loop_action_branches_on_the_event() {
    assert_eq!(main_loop_action(&WindowInputEvent::Exit), LoopAction::Stop);
    assert_eq!(main_loop_action(&WindowInputEvent::NoOp), LoopAction::Skip);
    assert_eq!(
        main_loop_action(&WindowInputEvent::WriteFile),
        LoopAction::WriteAndRender
    );
    assert_eq!(
        main_loop_action(&WindowInputEvent::Resize(3, 3)),
        LoopAction::Render
    );
    assert_eq!(
        main_loop_action(&WindowInputEvent::KeyPress(KeyEvent {
            code: KeyCode::Other,
            modifiers: 0,
        })),
        LoopAction::Render
    );
}
