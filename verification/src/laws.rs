//! The guarantees the editor gives across whole interactions: what runs
//! of key presses do to the buffer, what the mode always returns to, and
//! that saving and re-loading a buffer loses nothing.

use vstd::prelude::*;

verus! {

use crate::input::KeyCode;
use crate::input::WindowInputEvent;
use crate::input::is_char_press;
use crate::input::key_press;
use crate::input::last_line;
use crate::input::step;
use crate::input::step_all;
use crate::state::InputMode;
use crate::state::StateView;
use crate::text::file_text;
use crate::text::joined_each;
use crate::text::lines_acc;
use crate::text::lines_of;
use crate::text::strip_cr;

/// Law: a resize event sets the viewport to exactly the width and height
/// received and alters neither the cursor nor the buffer; the mode, the
/// command text, and the dirty flag keep their values too.
pub proof fn lemma_resize_updates_viewport_only(s: StateView, width: u16, height: u16)
    ensures
        step(s, WindowInputEvent::Resize(width, height)).0.dimensions == (width, height),
        step(s, WindowInputEvent::Resize(width, height)).0.cursor_position == s.cursor_position,
        step(s, WindowInputEvent::Resize(width, height)).0.content == s.content,
        step(s, WindowInputEvent::Resize(width, height)).0.input_mode == s.input_mode,
        step(s, WindowInputEvent::Resize(width, height)).0.command == s.command,
        step(s, WindowInputEvent::Resize(width, height)).0.has_content_changed
            == s.has_content_changed,
        step(s, WindowInputEvent::Resize(width, height)).1
            == WindowInputEvent::Resize(width, height),
{
}

/// Law: pressing Escape in insert or command mode always returns the
/// editor to normal mode, and leaving command mode this way clears the
/// command text.
pub proof fn lemma_escape_returns_to_normal(s: StateView, modifiers: u8)
    requires
        s.input_mode == InputMode::InsertMode || s.input_mode == InputMode::CommandMode,
    ensures
        step(s, key_press(KeyCode::Esc, modifiers)).0.input_mode == InputMode::NormalMode,
        s.input_mode == InputMode::CommandMode ==> step(
            s,
            key_press(KeyCode::Esc, modifiers),
        ).0.command == Seq::<char>::empty(),
{
}

/// Law: from normal mode with no command text pending, typing `:`, then
/// `q`, then Enter always produces the exit event, whatever the dirty
/// flag or the buffer hold.
pub proof fn lemma_quit_command_exits(s: StateView, m1: u8, m2: u8, m3: u8)
    requires
        s.input_mode == InputMode::NormalMode,
        s.command == Seq::<char>::empty(),
    ensures
        step(
            step(
                step(s, key_press(KeyCode::Char(':'), m1)).0,
                key_press(KeyCode::Char('q'), m2),
            ).0,
            key_press(KeyCode::Enter, m3),
        ).1 == WindowInputEvent::Exit,
{
    reveal_strlit("q");
    let s2 = step(
        step(s, key_press(KeyCode::Char(':'), m1)).0,
        key_press(KeyCode::Char('q'), m2),
    ).0;
    assert(s2.command =~= "q"@);
}

/// Law: from normal mode with no command text pending, typing `:`, then
/// `w`, then Enter produces the write-file event exactly when the dirty
/// flag is set; otherwise it returns to normal mode with the command
/// text cleared and no file action requested.
pub proof fn lemma_write_command_iff_dirty(s: StateView, m1: u8, m2: u8, m3: u8)
    requires
        s.input_mode == InputMode::NormalMode,
        s.command == Seq::<char>::empty(),
    ensures
        s.has_content_changed ==> step(
            step(
                step(s, key_press(KeyCode::Char(':'), m1)).0,
                key_press(KeyCode::Char('w'), m2),
            ).0,
            key_press(KeyCode::Enter, m3),
        ).1 == WindowInputEvent::WriteFile,
        !s.has_content_changed ==> step(
            step(
                step(s, key_press(KeyCode::Char(':'), m1)).0,
                key_press(KeyCode::Char('w'), m2),
            ).0,
            key_press(KeyCode::Enter, m3),
        ).1 == WindowInputEvent::ChangeMode(InputMode::CommandMode, InputMode::NormalMode),
        !s.has_content_changed ==> step(
            step(
                step(s, key_press(KeyCode::Char(':'), m1)).0,
                key_press(KeyCode::Char('w'), m2),
            ).0,
            key_press(KeyCode::Enter, m3),
        ).0.input_mode == InputMode::NormalMode,
        !s.has_content_changed ==> step(
            step(
                step(s, key_press(KeyCode::Char(':'), m1)).0,
                key_press(KeyCode::Char('w'), m2),
            ).0,
            key_press(KeyCode::Enter, m3),
        ).0.command == Seq::<char>::empty(),
{
    reveal_strlit("q");
    reveal_strlit("w");
    let s2 = step(
        step(s, key_press(KeyCode::Char(':'), m1)).0,
        key_press(KeyCode::Char('w'), m2),
    ).0;
    assert(s2.command =~= "w"@);
    assert(s2.command[0] == 'w' && "q"@[0] == 'q');
}

/// Law: in insert mode, with the column sitting at the end of the last
/// line, a run of character key presses grows that line by exactly the
/// number of characters pressed, and the column equals the line's length
/// afterwards; the editor stays in insert mode throughout.
pub proof fn lemma_insert_chars_grow_line(s: StateView, es: Seq<WindowInputEvent>)
    requires
        s.input_mode == InputMode::InsertMode,
        s.cursor_position.0 == last_line(s.content).len(),
        last_line(s.content).len() + es.len() <= u16::MAX,
        forall|i: int| 0 <= i < es.len() ==> is_char_press(#[trigger] es[i]),
    ensures
        step_all(s, es).input_mode == InputMode::InsertMode,
        last_line(step_all(s, es).content).len() == last_line(s.content).len() + es.len(),
        step_all(s, es).cursor_position.0 == last_line(step_all(s, es).content).len(),
    decreases es.len(),
{
    if es.len() > 0 {
        let e = es.first();
        let s1 = step(s, e).0;
        assert(is_char_press(e));
        match e {
            WindowInputEvent::KeyPress(k) => match k.code {
                KeyCode::Char(c) => {
                    assert(last_line(s1.content) =~= last_line(s.content).push(c));
                }
                _ => {}
            },
            _ => {}
        }
        lemma_insert_chars_grow_line(s1, es.drop_first());
    }
}

proof fn lemma_lines_acc_one_line(line: Seq<char>, t: Seq<char>, cur: Seq<char>)
    requires
        forall|i: int| 0 <= i < line.len() ==> line[i] != '\n',
    ensures
        lines_acc(line + seq!['\n'] + t, cur) == seq![strip_cr(cur + line)] + lines_acc(
            t,
            Seq::empty(),
        ),
    decreases line.len(),
{
    let text = line + seq!['\n'] + t;
    if line.len() == 0 {
        assert(text.first() == '\n');
        assert(text.drop_first() =~= t);
        assert(cur + line =~= cur);
    } else {
        let c = line.first();
        assert(text.first() == c);
        assert(c != '\n');
        assert(text.drop_first() =~= line.drop_first() + seq!['\n'] + t);
        lemma_lines_acc_one_line(line.drop_first(), t, cur.push(c));
        assert(cur.push(c) + line.drop_first() =~= cur + line);
    }
}

proof fn lemma_lines_of_joined(lines: Seq<Seq<char>>)
    requires
        forall|i: int, j: int|
            0 <= i < lines.len() && 0 <= j < lines[i].len() ==> #[trigger] lines[i][j] != '\n',
        forall|i: int|
            0 <= i < lines.len() && lines[i].len() > 0 ==> (#[trigger] lines[i]).last() != '\r',
    ensures
        lines_acc(joined_each(lines), Seq::empty()) == lines,
    decreases lines.len(),
{
    if lines.len() == 0 {
        assert(lines_acc(joined_each(lines), Seq::empty()) =~= lines);
    } else {
        let first = lines.first();
        let rest = lines.drop_first();
        lemma_lines_acc_one_line(first, joined_each(rest), Seq::empty());
        assert(Seq::empty() + first =~= first);
        assert(strip_cr(first) == first);
        lemma_lines_of_joined(rest);
        assert(seq![first] + rest =~= lines);
    }
}

/// Law: writing a buffer to its file and loading the text back through
/// the file-seeding path reproduces the line sequence exactly, provided
/// no line contains a line feed and no line ends in a carriage return.
/// An empty buffer is written as a single line feed and loads back as
/// one empty line.
pub proof fn lemma_file_round_trip(lines: Seq<Seq<char>>)
    requires
        forall|i: int, j: int|
            0 <= i < lines.len() && 0 <= j < lines[i].len() ==> #[trigger] lines[i][j] != '\n',
        forall|i: int|
            0 <= i < lines.len() && lines[i].len() > 0 ==> (#[trigger] lines[i]).last() != '\r',
    ensures
        lines.len() > 0 ==> lines_of(file_text(lines)) == lines,
        lines.len() == 0 ==> lines_of(file_text(lines)) == seq![Seq::<char>::empty()],
{
    if lines.len() == 0 {
        let text = seq!['\n'];
        assert(text.first() == '\n');
        assert(text.drop_first() =~= Seq::<char>::empty());
        assert(seq![strip_cr(Seq::<char>::empty())] + lines_acc(
            Seq::<char>::empty(),
            Seq::<char>::empty(),
        ) =~= seq![Seq::<char>::empty()]);
        assert(lines_of(file_text(lines)) =~= seq![Seq::<char>::empty()]);
    } else {
        lemma_lines_of_joined(lines);
    }
}

} // verus!
