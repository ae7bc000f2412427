//! Input events and the modal input state machine.
//!
//! Raw terminal notifications reach the editor as [`WindowInputEvent`]
//! values made of plain data; the surrounding program converts whatever its
//! event source produces into these before handing them over.

use vstd::prelude::*;

verus! {

use crate::state::InputMode;
use crate::state::StateView;
use crate::state::WindowState;

/// A key code, source-agnostic: a character, Enter, Escape, or anything else.
#[derive(Clone, Copy, Debug, PartialEq, Eq, Structural)]
pub enum KeyCode {
    Char(char),
    Enter,
    Esc,
    Other,
}

/// A keyboard input: the key that was pressed and the modifier bits held
/// with it (the modifiers never influence the editor's behavior).
#[derive(Clone, Copy, Debug, PartialEq, Eq, Structural)]
pub struct KeyEvent {
    pub code: KeyCode,
    pub modifiers: u8,
}

/// The kind of a mouse notification.
#[derive(Clone, Copy, Debug, PartialEq, Eq, Structural)]
pub enum MouseKind {
    Down,
    Up,
    Drag,
    Moved,
    ScrollDown,
    ScrollUp,
    Other,
}

/// A mouse input at a terminal cell. Mouse events are recorded in the
/// event history but otherwise ignored.
#[derive(Clone, Copy, Debug, PartialEq, Eq, Structural)]
pub struct MouseEvent {
    pub kind: MouseKind,
    pub column: u16,
    pub row: u16,
}

/// Window/user input event.
#[derive(Clone, Copy, Debug, PartialEq, Eq, Structural)]
pub enum WindowInputEvent {
    /// No operation: no input was received before the event source timed out.
    NoOp,
    /// User has requested to exit the application.
    Exit,
    /// User has performed keyboard input.
    KeyPress(KeyEvent),
    /// User has performed mouse input.
    Mouse(MouseEvent),
    /// User has resized the terminal emulator window.
    Resize(u16, u16),
    /// The active input mode changes from the first mode to the second.
    ChangeMode(InputMode, InputMode),
    /// User has requested the buffer be written to its backing file.
    WriteFile,
}

/// Column or row one step further, stopping at the largest value a
/// terminal coordinate can hold.
pub open spec fn inc_u16(x: u16) -> u16 {
    if x == u16::MAX {
        u16::MAX
    } else {
        (x + 1) as u16
    }
}

/// Column or row one step back, clamped at zero.
pub open spec fn dec_u16(x: u16) -> u16 {
    if x == 0 {
        0
    } else {
        (x - 1) as u16
    }
}

/// The line edits are applied to: the last buffer line, or the implicit
/// empty line when the buffer holds no line yet.
pub open spec fn last_line(content: Seq<Seq<char>>) -> Seq<char> {
    if content.len() == 0 {
        Seq::empty()
    } else {
        content.last()
    }
}

/// The buffer with its last line replaced by `line`; an empty buffer
/// gains `line` as its only line.
pub open spec fn set_last_line(content: Seq<Seq<char>>, line: Seq<char>) -> Seq<Seq<char>> {
    if content.len() == 0 {
        seq![line]
    } else {
        content.update(content.len() - 1, line)
    }
}

/// The buffer line the cursor row addresses: the line at that row, or
/// the implicit empty line when the row lies outside the buffer (as it
/// does in an empty buffer).
pub open spec fn line_at(content: Seq<Seq<char>>, row: u16) -> Seq<char> {
    if (row as int) < content.len() {
        content[row as int]
    } else {
        Seq::empty()
    }
}

/// The last row the cursor may rest on: the last line's index, with an
/// empty buffer read as one implicit empty line, and no further than a
/// 16-bit row index reaches.
pub open spec fn last_row(content: Seq<Seq<char>>) -> u16 {
    if content.len() == 0 {
        0
    } else if content.len() - 1 > u16::MAX {
        u16::MAX
    } else {
        (content.len() - 1) as u16
    }
}

/// The cursor row one step down, stopping at the last valid row.
pub open spec fn row_below(content: Seq<Seq<char>>, row: u16) -> u16 {
    if row < last_row(content) {
        (row + 1) as u16
    } else {
        row
    }
}

/// The cursor column one step right, stopping at the length of the line
/// the row addresses (and at the largest 16-bit value).
pub open spec fn col_right(content: Seq<Seq<char>>, col: u16, row: u16) -> u16 {
    if (col as int) < line_at(content, row).len() && col < u16::MAX {
        (col + 1) as u16
    } else {
        col
    }
}

/// What one key press does in normal mode: `:` and `i` begin command and
/// insert entry, `h`/`j`/`k`/`l` move the cursor left/down/up/right,
/// clamped so it never leaves the buffer (`h`/`k` stop at zero, `j` at
/// the last valid row, `l` at the addressed line's length), Escape
/// requests exit, and any other key is merely echoed.
pub open spec fn step_normal(s: StateView, k: KeyEvent) -> (StateView, WindowInputEvent) {
    match k.code {
        KeyCode::Char(c) => if c == ':' {
            (s, WindowInputEvent::ChangeMode(s.input_mode, InputMode::CommandMode))
        } else if c == 'i' {
            (s, WindowInputEvent::ChangeMode(s.input_mode, InputMode::InsertMode))
        } else if c == 'h' {
            (
                StateView {
                    cursor_position: (dec_u16(s.cursor_position.0), s.cursor_position.1),
                    ..s
                },
                WindowInputEvent::KeyPress(k),
            )
        } else if c == 'k' {
            (
                StateView {
                    cursor_position: (s.cursor_position.0, dec_u16(s.cursor_position.1)),
                    ..s
                },
                WindowInputEvent::KeyPress(k),
            )
        } else if c == 'j' {
            (
                StateView {
                    cursor_position: (
                        s.cursor_position.0,
                        row_below(s.content, s.cursor_position.1),
                    ),
                    ..s
                },
                WindowInputEvent::KeyPress(k),
            )
        } else if c == 'l' {
            (
                StateView {
                    cursor_position: (
                        col_right(s.content, s.cursor_position.0, s.cursor_position.1),
                        s.cursor_position.1,
                    ),
                    ..s
                },
                WindowInputEvent::KeyPress(k),
            )
        } else {
            (s, WindowInputEvent::KeyPress(k))
        },
        KeyCode::Esc => (s, WindowInputEvent::Exit),
        _ => (s, WindowInputEvent::KeyPress(k)),
    }
}

/// What one key press does in insert mode: Escape leaves insertion and
/// touches nothing else; Enter appends a new empty line and puts the
/// cursor at the start of the next row; a character is appended to the
/// last line and the cursor advances; any other key is unrecognized
/// input and leaves the state untouched. Only the two edits, Enter and
/// a character, mark the buffer dirty.
pub open spec fn step_insert(s: StateView, k: KeyEvent) -> (StateView, WindowInputEvent) {
    match k.code {
        KeyCode::Esc => (s, WindowInputEvent::ChangeMode(s.input_mode, InputMode::NormalMode)),
        KeyCode::Enter => (
            StateView {
                content: s.content.push(Seq::empty()),
                cursor_position: (0u16, inc_u16(s.cursor_position.1)),
                has_content_changed: true,
                ..s
            },
            WindowInputEvent::KeyPress(k),
        ),
        KeyCode::Char(c) => (
            StateView {
                content: set_last_line(s.content, last_line(s.content).push(c)),
                cursor_position: (inc_u16(s.cursor_position.0), s.cursor_position.1),
                has_content_changed: true,
                ..s
            },
            WindowInputEvent::KeyPress(k),
        ),
        _ => (s, WindowInputEvent::KeyPress(k)),
    }
}

/// What Enter does to the accumulated command text: `q` requests exit
/// whatever the dirty flag says; `w` with a dirty buffer requests a file
/// write; anything else is discarded and normal mode resumes.
pub open spec fn step_parse_command(s: StateView) -> (StateView, WindowInputEvent) {
    if s.command == "q"@ {
        (s, WindowInputEvent::Exit)
    } else if s.command == "w"@ && s.has_content_changed {
        (s, WindowInputEvent::WriteFile)
    } else {
        (
            StateView { command: Seq::empty(), ..s },
            WindowInputEvent::ChangeMode(s.input_mode, InputMode::NormalMode),
        )
    }
}

/// What one key press does in command mode: Escape discards the command
/// text and returns to normal mode, Enter parses it, a character is
/// appended to it, and any other key is echoed.
pub open spec fn step_command(s: StateView, k: KeyEvent) -> (StateView, WindowInputEvent) {
    match k.code {
        KeyCode::Esc => (
            StateView { command: Seq::empty(), ..s },
            WindowInputEvent::ChangeMode(s.input_mode, InputMode::NormalMode),
        ),
        KeyCode::Enter => step_parse_command(s),
        KeyCode::Char(c) => (
            StateView { command: s.command.push(c), ..s },
            WindowInputEvent::KeyPress(k),
        ),
        _ => (s, WindowInputEvent::KeyPress(k)),
    }
}

/// One key press, dispatched on the active mode.
pub open spec fn step_key(s: StateView, k: KeyEvent) -> (StateView, WindowInputEvent) {
    match s.input_mode {
        InputMode::NormalMode => step_normal(s, k),
        InputMode::InsertMode => step_insert(s, k),
        InputMode::CommandMode => step_command(s, k),
    }
}

/// One whole input event: it is first recorded in the event history,
/// then a resize updates the dimensions, a key press runs the mode
/// logic, and everything else passes through untouched; finally, if the
/// resulting event is a mode change, the new mode takes effect.
pub open spec fn step(s: StateView, e: WindowInputEvent) -> (StateView, WindowInputEvent) {
    let logged = StateView { input_event_history: s.input_event_history.push(e), ..s };
    let (handled, out) = match e {
        WindowInputEvent::Resize(width, height) => (
            StateView { dimensions: (width, height), ..logged },
            e,
        ),
        WindowInputEvent::KeyPress(k) => step_key(logged, k),
        _ => (logged, e),
    };
    match out {
        WindowInputEvent::ChangeMode(_from, to) => (
            StateView { input_mode: to, ..handled },
            out,
        ),
        _ => (handled, out),
    }
}

/// Feeds one input event to the editor: records it, applies its effect
/// to the state, and returns the semantic event it amounts to, exactly
/// as [`step`] describes.
pub fn handle_window_input(state: &mut WindowState, event: WindowInputEvent) -> (r:
    WindowInputEvent)
    ensures
        final(state)@ == step(old(state)@, event).0,
        r == step(old(state)@, event).1,
{
    state.push_input_event(event);
    let mut event = event;

    match event {
        WindowInputEvent::Resize(width, height) => {
            state.dimensions = (width, height);
        }
        WindowInputEvent::KeyPress(key_event) => {
            event = handle_key_press(state, key_event);
        }
        _ => {}
    }

    if let WindowInputEvent::ChangeMode(_, to) = event {
        state.input_mode = to;
    }

    event
}

fn handle_key_press(state: &mut WindowState, key_event: KeyEvent) -> (r: WindowInputEvent)
    ensures
        final(state)@ == step_key(old(state)@, key_event).0,
        r == step_key(old(state)@, key_event).1,
{
    match state.input_mode {
        InputMode::NormalMode => handle_key_press_normal(state, key_event),
        InputMode::InsertMode => handle_key_press_insert(state, key_event),
        InputMode::CommandMode => handle_key_press_command(state, key_event),
    }
}

fn handle_key_press_normal(state: &mut WindowState, key_event: KeyEvent) -> (r: WindowInputEvent)
    ensures
        final(state)@ == step_normal(old(state)@, key_event).0,
        r == step_normal(old(state)@, key_event).1,
{
    match key_event.code {
        KeyCode::Char(':') => {
            WindowInputEvent::ChangeMode(state.input_mode, InputMode::CommandMode)
        }
        KeyCode::Char('i') => WindowInputEvent::ChangeMode(state.input_mode, InputMode::InsertMode),
        KeyCode::Char('h') => {
            let (x, y) = state.cursor_position;
            state.cursor_position = (if x > 0 { x - 1 } else { 0 }, y);
            WindowInputEvent::KeyPress(key_event)
        }
        KeyCode::Char('k') => {
            let (x, y) = state.cursor_position;
            state.cursor_position = (x, if y > 0 { y - 1 } else { 0 });
            WindowInputEvent::KeyPress(key_event)
        }
        KeyCode::Char('j') => {
            let (x, y) = state.cursor_position;
            let last = last_row_of(&state.content);
            state.cursor_position = (x, if y < last { y + 1 } else { y });
            WindowInputEvent::KeyPress(key_event)
        }
        KeyCode::Char('l') => {
            let (x, y) = state.cursor_position;
            let len = line_len_at(&state.content, y);
            state.cursor_position = (
                if (x as usize) < len && x < u16::MAX { x + 1 } else { x },
                y,
            );
            WindowInputEvent::KeyPress(key_event)
        }
        KeyCode::Esc => WindowInputEvent::Exit,
        _ => WindowInputEvent::KeyPress(key_event),
    }
}

/// The last row the cursor may rest on in this buffer.
fn last_row_of(content: &Vec<String>) -> (r: u16)
    ensures
        r == last_row(content.deep_view()),
{
    let n = content.len();
    if n == 0 {
        0
    } else if n - 1 > u16::MAX as usize {
        u16::MAX
    } else {
        (n - 1) as u16
    }
}

/// The length of the buffer line the given row addresses (zero when the
/// row lies outside the buffer).
fn line_len_at(content: &Vec<String>, row: u16) -> (r: usize)
    ensures
        r as nat == line_at(content.deep_view(), row).len(),
{
    if (row as usize) < content.len() {
        content[row as usize].as_str().unicode_len()
    } else {
        0
    }
}

fn handle_key_press_insert(state: &mut WindowState, key_event: KeyEvent) -> (r: WindowInputEvent)
    ensures
        final(state)@ == step_insert(old(state)@, key_event).0,
        r == step_insert(old(state)@, key_event).1,
{
    let default = String::new();
    let mut line = state.last_content_line_or(&default).to_owned();
    let mut should_push = false;

    match key_event.code {
        KeyCode::Esc => {
            return WindowInputEvent::ChangeMode(state.input_mode, InputMode::NormalMode);
        }
        KeyCode::Enter => {
            line = String::new();
            should_push = true;
            let (_, y) = state.cursor_position;
            state.cursor_position = (0, if y < u16::MAX { y + 1 } else { u16::MAX });
        }
        KeyCode::Char(ch) => {
            line.push(ch);
            let (x, y) = state.cursor_position;
            state.cursor_position = (if x < u16::MAX { x + 1 } else { u16::MAX }, y);
        }
        _ => {
            return WindowInputEvent::KeyPress(key_event);
        }
    }

    if should_push || state.content.len() == 0 {
        state.content.push(line);
    } else {
        let idx = state.content.len() - 1;
        state.content[idx] = line;
    }

    state.has_content_changed = true;

    proof {
        assert(state@.content =~= step_insert(old(state)@, key_event).0.content);
        assert(state@ =~= step_insert(old(state)@, key_event).0);
    }

    WindowInputEvent::KeyPress(key_event)
}

fn handle_key_press_command(state: &mut WindowState, key_event: KeyEvent) -> (r: WindowInputEvent)
    ensures
        final(state)@ == step_command(old(state)@, key_event).0,
        r == step_command(old(state)@, key_event).1,
{
    if let KeyCode::Esc = key_event.code {
        state.command = String::new();
        return WindowInputEvent::ChangeMode(state.input_mode, InputMode::NormalMode);
    }

    if let KeyCode::Enter = key_event.code {
        return parse_command(state);
    }

    if let KeyCode::Char(c) = key_event.code {
        state.command.push(c);
    }

    WindowInputEvent::KeyPress(key_event)
}

fn parse_command(state: &mut WindowState) -> (r: WindowInputEvent)
    ensures
        final(state)@ == step_parse_command(old(state)@).0,
        r == step_parse_command(old(state)@).1,
{
    let quit = String::from_str("q");
    if state.command.eq(&quit) {
        return WindowInputEvent::Exit;
    }

    let write = String::from_str("w");
    if state.command.eq(&write) && state.has_content_changed {
        return WindowInputEvent::WriteFile;
    }

    state.command = String::new();
    WindowInputEvent::ChangeMode(state.input_mode, InputMode::NormalMode)
}

/// The key-press event for one key code with the given modifier bits.
pub open spec fn key_press(code: KeyCode, modifiers: u8) -> WindowInputEvent {
    WindowInputEvent::KeyPress(KeyEvent { code, modifiers })
}

/// Whether an event is a plain character key press.
pub open spec fn is_char_press(e: WindowInputEvent) -> bool {
    match e {
        WindowInputEvent::KeyPress(k) => match k.code {
            KeyCode::Char(_) => true,
            _ => false,
        },
        _ => false,
    }
}

/// The state after a sequence of events has been fed to the editor, in
/// order.
pub open spec fn step_all(s: StateView, es: Seq<WindowInputEvent>) -> StateView
    decreases es.len(),
{
    if es.len() == 0 {
        s
    } else {
        step_all(step(s, es.first()).0, es.drop_first())
    }
}

/// What the main loop does with the semantic event one iteration produced.
#[derive(Clone, Copy, Debug, PartialEq, Eq, Structural)]
pub enum LoopAction {
    /// Leave the loop: the session is over.
    Stop,
    /// Fetch the next event without redrawing.
    Skip,
    /// Write the buffer to the backing file, record the save, then redraw.
    WriteAndRender,
    /// Redraw the screen.
    Render,
}

/// The main loop's branch: exit stops the session, a no-op skips the
/// redraw, a write request saves before redrawing, and every other event
/// is followed by a redraw.
pub open spec fn loop_action_of(e: WindowInputEvent) -> LoopAction {
    match e {
        WindowInputEvent::Exit => LoopAction::Stop,
        WindowInputEvent::NoOp => LoopAction::Skip,
        WindowInputEvent::WriteFile => LoopAction::WriteAndRender,
        _ => LoopAction::Render,
    }
}

/// Decides, from the semantic event one iteration produced, what the
/// main loop does next, exactly as [`loop_action_of`] says.
pub fn main_loop_action(event: &WindowInputEvent) -> (r: LoopAction)
    ensures
        r == loop_action_of(*event),
{
    match event {
        WindowInputEvent::Exit => LoopAction::Stop,
        WindowInputEvent::NoOp => LoopAction::Skip,
        WindowInputEvent::WriteFile => LoopAction::WriteAndRender,
        _ => LoopAction::Render,
    }
}

} // verus!
