//! Renderer: computes the exact sequence of terminal drawing operations
//! that makes the screen match the buffer and puts the hardware cursor at
//! the logical cursor position. The operations are plain values; carrying
//! them out against a real terminal happens outside this crate, buffered
//! and flushed once per frame.

use vstd::prelude::*;

verus! {

use crate::state::StateView;
use crate::state::WindowState;

/// One terminal drawing operation.
#[derive(Clone, Debug, PartialEq)]
pub enum DrawOp {
    /// Clear the whole screen.
    ClearAll,
    /// Place the hardware cursor at the given column and row.
    MoveTo(u16, u16),
    /// Write the text at the hardware cursor.
    Print(String),
}

/// The mathematical value of a [`DrawOp`]: the printed text as a
/// character sequence.
pub enum DrawOpV {
    ClearAll,
    MoveTo(u16, u16),
    Print(Seq<char>),
}

impl View for DrawOp {
    type V = DrawOpV;

    open spec fn view(&self) -> DrawOpV {
        match self {
            DrawOp::ClearAll => DrawOpV::ClearAll,
            DrawOp::MoveTo(x, y) => DrawOpV::MoveTo(*x, *y),
            DrawOp::Print(s) => DrawOpV::Print(s@),
        }
    }
}

impl DeepView for DrawOp {
    type V = DrawOpV;

    open spec fn deep_view(&self) -> DrawOpV {
        self.view()
    }
}

/// The character for one decimal digit.
pub open spec fn digit_char(d: nat) -> char {
    if d == 0 {
        '0'
    } else if d == 1 {
        '1'
    } else if d == 2 {
        '2'
    } else if d == 3 {
        '3'
    } else if d == 4 {
        '4'
    } else if d == 5 {
        '5'
    } else if d == 6 {
        '6'
    } else if d == 7 {
        '7'
    } else if d == 8 {
        '8'
    } else {
        '9'
    }
}

/// The decimal digits of `n`, most significant first, without leading
/// zeros (zero itself is the single digit `0`).
pub open spec fn dec_digits(n: nat) -> Seq<char>
    decreases n,
{
    if n < 10 {
        seq![digit_char(n)]
    } else {
        dec_digits(n / 10).push(digit_char(n % 10))
    }
}

fn digit_to_char(d: u32) -> (c: char)
    requires
        d < 10,
    ensures
        c == digit_char(d as nat),
{
    if d == 0 {
        '0'
    } else if d == 1 {
        '1'
    } else if d == 2 {
        '2'
    } else if d == 3 {
        '3'
    } else if d == 4 {
        '4'
    } else if d == 5 {
        '5'
    } else if d == 6 {
        '6'
    } else if d == 7 {
        '7'
    } else if d == 8 {
        '8'
    } else {
        '9'
    }
}

/// Writes `n` in decimal, exactly as [`dec_digits`] says.
pub fn dec_string(n: u32) -> (r: String)
    ensures
        r@ == dec_digits(n as nat),
    decreases n,
{
    if n < 10 {
        let mut s = String::new();
        s.push(digit_to_char(n));
        proof {
            assert(s@ =~= dec_digits(n as nat));
        }
        s
    } else {
        let mut s = dec_string(n / 10);
        s.push(digit_to_char(n % 10));
        s
    }
}

/// `s` with every occurrence of `pat` replaced by `sub`, leftmost first
/// and without overlap, as the standard string replacement does.
pub open spec fn replaced(s: Seq<char>, pat: Seq<char>, sub: Seq<char>) -> Seq<char>
    decreases s.len(),
    when pat.len() > 0
{
    if s.len() < pat.len() {
        s
    } else if s.take(pat.len() as int) == pat {
        sub + replaced(s.skip(pat.len() as int), pat, sub)
    } else {
        seq![s.first()] + replaced(s.drop_first(), pat, sub)
    }
}

/// The characters of `s`, as a vector.
fn str_chars(s: &str) -> (r: Vec<char>)
    ensures
        r@ == s@,
{
    let n = s.unicode_len();
    let mut out: Vec<char> = Vec::new();
    let mut i: usize = 0;
    while i < n
        invariant
            n == s@.len(),
            i <= n,
            out@ == s@.take(i as int),
        decreases n - i,
    {
        out.push(s.get_char(i));
        i = i + 1;
        proof {
            assert(out@ =~= s@.take(i as int));
        }
    }
    proof {
        assert(out@ =~= s@);
    }
    out
}

/// Whether `pat` occurs in `s` at position `i`.
fn match_at(s: &Vec<char>, pat: &Vec<char>, i: usize) -> (r: bool)
    requires
        i + pat@.len() <= s@.len(),
    ensures
        r == (s@.subrange(i as int, i as int + pat@.len() as int) == pat@),
{
    let n = s.len();
    let m = pat.len();
    let mut j: usize = 0;
    while j < m
        invariant
            n == s@.len(),
            m == pat@.len(),
            i + m <= n,
            j <= m,
            forall|k: int| 0 <= k < j ==> s@[i + k] == pat@[k],
        decreases m - j,
    {
        if s[i + j] != pat[j] {
            proof {
                assert(s@.subrange(i as int, i as int + pat@.len() as int)[j as int]
                    != pat@[j as int]);
            }
            return false;
        }
        j = j + 1;
    }
    proof {
        assert(s@.subrange(i as int, i as int + pat@.len() as int) =~= pat@);
    }
    true
}

/// Replaces every occurrence of `pat` in `s` by `sub`, exactly as
/// [`replaced`] says.
#[verifier::rlimit(30)]
pub fn replace_all(s: &str, pat: &str, sub: &str) -> (r: String)
    requires
        pat@.len() > 0,
    ensures
        r@ == replaced(s@, pat@, sub@),
{
    let sv = str_chars(s);
    let pv = str_chars(pat);
    let mut out = String::new();
    let mut i: usize = 0;

    proof {
        assert(sv@.skip(0) =~= sv@);
        assert(out@ + replaced(s@, pat@, sub@) =~= replaced(s@, pat@, sub@));
    }
    while i < sv.len()
        invariant
            sv@ == s@,
            pv@ == pat@,
            pat@.len() > 0,
            i <= sv@.len(),
            replaced(s@, pat@, sub@) == out@ + replaced(s@.skip(i as int), pat@, sub@),
        decreases sv@.len() - i,
    {
        let ghost rem = s@.skip(i as int);
        let ghost out0 = out@;
        let ghost plen = pat@.len() as int;
        if pv.len() <= sv.len() - i && match_at(&sv, &pv, i) {
            proof {
                assert(rem.take(plen) =~= s@.subrange(i as int, i + plen));
                assert(rem.skip(plen) =~= s@.skip(i + plen));
                assert(replaced(rem, pat@, sub@) == sub@ + replaced(s@.skip(i + plen), pat@, sub@));
            }
            out.append(sub);
            i = i + pv.len();
            proof {
                assert((out0 + sub@) + replaced(s@.skip(i as int), pat@, sub@)
                    =~= out0 + (sub@ + replaced(s@.skip(i as int), pat@, sub@)));
            }
        } else {
            proof {
                if rem.len() >= plen {
                    assert(rem.take(plen) =~= s@.subrange(i as int, i + plen));
                    assert(rem.take(plen) != pat@);
                }
                assert(rem.drop_first() =~= s@.skip(i + 1));
                assert(rem =~= seq![s@[i as int]] + s@.skip(i + 1));
                assert(replaced(rem, pat@, sub@)
                    == seq![s@[i as int]] + replaced(s@.skip(i + 1), pat@, sub@));
            }
            let c = sv[i];
            out.push(c);
            i = i + 1;
            proof {
                assert(out@ =~= out0 + seq![c]);
                assert((out0 + seq![c]) + replaced(s@.skip(i as int), pat@, sub@)
                    =~= out0 + (seq![c] + replaced(s@.skip(i as int), pat@, sub@)));
            }
        }
    }
    proof {
        assert(s@.skip(sv@.len() as int) =~= Seq::<char>::empty());
    }
    out
}

/// The status line text: the template with `{line}` and `{column}`
/// replaced by the one-based row and column of the cursor.
pub open spec fn statusline_text(s: StateView) -> Seq<char> {
    replaced(
        replaced(s.statusline_format, "{line}"@, dec_digits((s.cursor_position.1 + 1) as nat)),
        "{column}"@,
        dec_digits((s.cursor_position.0 + 1) as nat),
    )
}

/// Builds the status line from the state's template, exactly as
/// [`statusline_text`] says.
pub fn format_statusline(state: &WindowState) -> (r: String)
    ensures
        r@ == statusline_text(state@),
{
    let (x, y) = state.cursor_position;
    let line = dec_string(y as u32 + 1);
    let column = dec_string(x as u32 + 1);
    proof {
        reveal_strlit("{line}");
        reveal_strlit("{column}");
    }
    let replaced_line = replace_all(state.statusline_format.as_str(), "{line}", line.as_str());
    replace_all(replaced_line.as_str(), "{column}", column.as_str())
}

/// The three operations that draw buffer line `i`: address its row,
/// print it, and return the hardware cursor to the cursor position.
pub open spec fn line_ops(s: StateView, i: int) -> Seq<DrawOpV> {
    seq![
        DrawOpV::MoveTo(0u16, i as u16),
        DrawOpV::Print(s.content[i]),
        DrawOpV::MoveTo(s.cursor_position.0, s.cursor_position.1),
    ]
}

/// The operations that draw the first `n` buffer lines, in order.
pub open spec fn content_ops(s: StateView, n: int) -> Seq<DrawOpV>
    decreases n,
{
    if n <= 0 {
        Seq::empty()
    } else {
        content_ops(s, n - 1) + line_ops(s, n - 1)
    }
}

/// The operations that draw the status line at the bottom window row.
pub open spec fn statusline_ops(s: StateView) -> Seq<DrawOpV> {
    seq![
        DrawOpV::MoveTo(0u16, (s.dimensions.1 - 1) as u16),
        DrawOpV::Print(statusline_text(s)),
        DrawOpV::MoveTo(s.cursor_position.0, s.cursor_position.1),
    ]
}

/// One full frame: clear the screen, draw every buffer line, draw the
/// status line.
pub open spec fn frame_ops(s: StateView) -> Seq<DrawOpV> {
    seq![DrawOpV::ClearAll] + content_ops(s, s.content.len() as int) + statusline_ops(s)
}

/// The operations of the initial screen reset: clear the screen, then
/// place the hardware cursor at the cursor position.
pub open spec fn reset_ops(s: StateView) -> Seq<DrawOpV> {
    seq![DrawOpV::ClearAll, DrawOpV::MoveTo(s.cursor_position.0, s.cursor_position.1)]
}

/// Computes one frame's drawing operations, exactly as [`frame_ops`]
/// says. The buffer can hold at most as many lines as a 16-bit row
/// index addresses, and the window must be at least one row tall for
/// the status line.
pub fn render_ops(state: &WindowState) -> (r: Vec<DrawOp>)
    requires
        state@.content.len() <= 0x10000,
        state@.dimensions.1 >= 1,
    ensures
        r.deep_view() == frame_ops(state@),
{
    let mut ops: Vec<DrawOp> = Vec::new();
    ops.push(DrawOp::ClearAll);
    let (cx, cy) = state.cursor_position;
    let n = state.content.len();
    let mut i: usize = 0;
    proof {
        assert(ops.deep_view() =~= seq![DrawOpV::ClearAll] + content_ops(state@, 0));
    }
    while i < n
        invariant
            n == state@.content.len(),
            n <= 0x10000,
            i <= n,
            cx == state@.cursor_position.0,
            cy == state@.cursor_position.1,
            ops.deep_view() == seq![DrawOpV::ClearAll] + content_ops(state@, i as int),
        decreases n - i,
    {
        let ghost prev = ops.deep_view();
        ops.push(DrawOp::MoveTo(0, i as u16));
        ops.push(DrawOp::Print(state.content[i].clone()));
        ops.push(DrawOp::MoveTo(cx, cy));
        i = i + 1;
        proof {
            assert(ops.deep_view() =~= prev + line_ops(state@, i - 1));
            assert(seq![DrawOpV::ClearAll] + content_ops(state@, i as int)
                =~= prev + line_ops(state@, i - 1));
        }
    }
    let sl = format_statusline(state);
    let ghost prev = ops.deep_view();
    ops.push(DrawOp::MoveTo(0, state.dimensions.1 - 1));
    ops.push(DrawOp::Print(sl));
    ops.push(DrawOp::MoveTo(cx, cy));
    proof {
        assert(ops.deep_view() =~= prev + statusline_ops(state@));
        assert(ops.deep_view() =~= frame_ops(state@));
    }
    ops
}

/// Computes the operations of the initial screen reset, exactly as
/// [`reset_ops`] says.
pub fn reset_screen_ops(state: &WindowState) -> (r: Vec<DrawOp>)
    ensures
        r.deep_view() == reset_ops(state@),
{
    let mut ops: Vec<DrawOp> = Vec::new();
    ops.push(DrawOp::ClearAll);
    let (cx, cy) = state.cursor_position;
    ops.push(DrawOp::MoveTo(cx, cy));
    proof {
        assert(ops.deep_view() =~= reset_ops(state@));
    }
    ops
}

} // verus!
