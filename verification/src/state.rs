//! Editor state: buffer lines, cursor, viewport, mode, command buffer,
//! dirty flag, and the event history.

use vstd::prelude::*;

verus! {

use crate::input::WindowInputEvent;

/// The active input mode, governing how key codes are interpreted.
#[derive(Clone, Copy, Debug, PartialEq, Eq, Structural)]
pub enum InputMode {
    NormalMode,
    InsertMode,
    CommandMode,
}

/// Window state for the editor.
pub struct WindowState {
    /// Text accumulated while in command mode.
    pub command: String,
    /// Current content: the buffer lines, in document order.
    pub content: Vec<String>,
    /// Current cursor position.
    ///
    /// Represented as a two element tuple with the x position (column) as
    /// the first element and the y position (row) as the second element.
    ///
    /// Initial value is `(0, 0)`.
    pub cursor_position: (u16, u16),
    /// Current window dimensions.
    ///
    /// Represented as a two element tuple with the width as the first
    /// element and the height as the second element. `(1, 1)` is the
    /// sentinel used when the terminal size is not known.
    pub dimensions: (u16, u16),
    /// Path of the backing file; empty when there is none.
    pub filename: String,
    /// Dirty flag: set by any buffer edit in insert mode, cleared after a
    /// successful save.
    pub has_content_changed: bool,
    /// Every input event processed so far, in order.
    pub input_event_history: Vec<WindowInputEvent>,
    pub input_mode: InputMode,
    /// Template for the status line; `{line}` and `{column}` are replaced
    /// with the one-based cursor coordinates when it is rendered.
    pub statusline_format: String,
}

/// The mathematical value of a [`WindowState`]: the same fields over
/// sequences instead of heap-allocated strings and vectors.
#[verifier::ext_equal]
pub struct StateView {
    pub command: Seq<char>,
    pub content: Seq<Seq<char>>,
    pub cursor_position: (u16, u16),
    pub dimensions: (u16, u16),
    pub filename: Seq<char>,
    pub has_content_changed: bool,
    pub input_event_history: Seq<WindowInputEvent>,
    pub input_mode: InputMode,
    pub statusline_format: Seq<char>,
}

impl View for WindowState {
    type V = StateView;

    open spec fn view(&self) -> StateView {
        StateView {
            command: self.command@,
            content: self.content.deep_view(),
            cursor_position: self.cursor_position,
            dimensions: self.dimensions,
            filename: self.filename@,
            has_content_changed: self.has_content_changed,
            input_event_history: self.input_event_history@,
            input_mode: self.input_mode,
            statusline_format: self.statusline_format@,
        }
    }
}

impl WindowState {
    /// Creates a new `WindowState` value: empty buffer, cursor at the
    /// origin, normal mode, no backing file, and the sentinel dimensions.
    pub fn new() -> (r: Self)
        ensures
            r@.command == Seq::<char>::empty(),
            r@.content == Seq::<Seq<char>>::empty(),
            r@.cursor_position == (0u16, 0u16),
            r@.dimensions == (1u16, 1u16),
            r@.filename == Seq::<char>::empty(),
            r@.has_content_changed == false,
            r@.input_event_history == Seq::<WindowInputEvent>::empty(),
            r@.input_mode == InputMode::NormalMode,
            r@.statusline_format == "[{mode}] L: {line}, C: {column}"@,
    {
        WindowState {
            command: String::new(),
            content: Vec::new(),
            cursor_position: (0, 0),
            dimensions: (1, 1),
            filename: String::new(),
            has_content_changed: false,
            input_event_history: Vec::new(),
            input_mode: InputMode::NormalMode,
            statusline_format: "[{mode}] L: {line}, C: {column}".to_owned(),
        }
    }

    /// Creates a window state backed by `filename`, its buffer seeded by
    /// splitting `text` on line boundaries; an empty `text` (as an
    /// unreadable file yields) leaves the buffer empty while the path is
    /// retained for a later save.
    pub fn from_file_text(filename: String, text: &str) -> (r: Self)
        ensures
            r@.command == Seq::<char>::empty(),
            r@.content == crate::text::lines_of(text@),
            r@.cursor_position == (0u16, 0u16),
            r@.dimensions == (1u16, 1u16),
            r@.filename == filename@,
            r@.has_content_changed == false,
            r@.input_event_history == Seq::<WindowInputEvent>::empty(),
            r@.input_mode == InputMode::NormalMode,
            r@.statusline_format == "[{mode}] L: {line}, C: {column}"@,
    {
        let mut state = WindowState::new();
        state.content = crate::text::split_lines(text);
        state.filename = filename;
        state
    }

    /// Records a successful save: the dirty flag is cleared, normal mode
    /// resumes, and the command text is discarded; the buffer, cursor,
    /// and history keep their values.
    pub fn mark_saved(&mut self)
        ensures
            final(self).command@ == Seq::<char>::empty(),
            final(self).has_content_changed == false,
            final(self).input_mode == InputMode::NormalMode,
            final(self).content == old(self).content,
            final(self).cursor_position == old(self).cursor_position,
            final(self).dimensions == old(self).dimensions,
            final(self).filename == old(self).filename,
            final(self).input_event_history == old(self).input_event_history,
            final(self).statusline_format == old(self).statusline_format,
    {
        self.input_mode = InputMode::NormalMode;
        self.command = String::new();
        self.has_content_changed = false;
    }

    /// The last buffer line, if the buffer holds any line at all.
    pub fn last_content_line(&self) -> (r: Option<&String>)
        ensures
            match r {
                Some(s) => self@.content.len() > 0 && s@ == self@.content.last(),
                None => self@.content.len() == 0,
            },
    {
        if self.content.len() == 0 {
            None
        } else {
            Some(&self.content[self.content.len() - 1])
        }
    }

    /// The last buffer line, or the given default when the buffer is empty.
    pub fn last_content_line_or<'a>(&'a self, default: &'a str) -> (r: &'a str)
        ensures
            r@ == if self@.content.len() > 0 {
                self@.content.last()
            } else {
                default@
            },
    {
        match self.last_content_line() {
            Some(s) => s.as_str(),
            None => default,
        }
    }

    /// Appends an event to the event history; nothing else changes.
    pub fn push_input_event(&mut self, event: WindowInputEvent)
        ensures
            final(self).input_event_history@ == old(self).input_event_history@.push(event),
            final(self).command == old(self).command,
            final(self).content == old(self).content,
            final(self).cursor_position == old(self).cursor_position,
            final(self).dimensions == old(self).dimensions,
            final(self).filename == old(self).filename,
            final(self).has_content_changed == old(self).has_content_changed,
            final(self).input_mode == old(self).input_mode,
            final(self).statusline_format == old(self).statusline_format,
    {
        self.input_event_history.push(event)
    }

    /// The most recently processed event, if any has been processed.
    pub fn last_input_event(&self) -> (r: Option<&WindowInputEvent>)
        ensures
            match r {
                Some(e) => self@.input_event_history.len() > 0 && *e
                    == self@.input_event_history.last(),
                None => self@.input_event_history.len() == 0,
            },
    {
        if self.input_event_history.len() == 0 {
            None
        } else {
            Some(&self.input_event_history[self.input_event_history.len() - 1])
        }
    }

    /// Applies a pure transform to the cursor position, atomically;
    /// every other field keeps its value.
    pub fn update_cursor_position<F: Fn((u16, u16)) -> (u16, u16)>(&mut self, f: F)
        requires
            call_requires(f, (old(self).cursor_position,)),
        ensures
            call_ensures(f, (old(self).cursor_position,), final(self).cursor_position),
            final(self).command == old(self).command,
            final(self).content == old(self).content,
            final(self).dimensions == old(self).dimensions,
            final(self).filename == old(self).filename,
            final(self).has_content_changed == old(self).has_content_changed,
            final(self).input_event_history == old(self).input_event_history,
            final(self).input_mode == old(self).input_mode,
            final(self).statusline_format == old(self).statusline_format,
    {
        self.cursor_position = f(self.cursor_position)
    }
}

impl Clone for WindowState {
    /// The copy keeps only the cursor position, the dimensions, and the
    /// input mode; the buffer, the history, and the other text fields
    /// start fresh.
    fn clone(&self) -> (r: Self)
        ensures
            r@.command == Seq::<char>::empty(),
            r@.content == Seq::<Seq<char>>::empty(),
            r@.cursor_position == self.cursor_position,
            r@.dimensions == self.dimensions,
            r@.filename == Seq::<char>::empty(),
            r@.has_content_changed == false,
            r@.input_event_history == Seq::<WindowInputEvent>::empty(),
            r@.input_mode == self.input_mode,
            r@.statusline_format == Seq::<char>::empty(),
    {
        WindowState {
            command: String::new(),
            content: Vec::new(),
            cursor_position: self.cursor_position,
            dimensions: self.dimensions,
            filename: String::new(),
            has_content_changed: false,
            input_event_history: Vec::new(),
            input_mode: self.input_mode,
            statusline_format: String::new(),
        }
    }
}

} // verus!
