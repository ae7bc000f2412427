//! Plain-text helpers shared by the editing and serialization logic.

use vstd::prelude::*;

verus! {

/// Relies on `String::push`: appends the given character to the end of
/// this string.
pub assume_specification[ String::push ](s: &mut String, ch: char)
    ensures
        final(s)@ == old(s)@.push(ch),
;

/// A line as it is recovered from file text: a carriage return that
/// immediately preceded the line feed is not part of the line.
pub open spec fn strip_cr(line: Seq<char>) -> Seq<char> {
    if line.len() > 0 && line.last() == '\r' {
        line.drop_last()
    } else {
        line
    }
}

/// The lines of `text` once `cur` holds the characters of the current
/// line read so far: each line feed ends a line (dropping a carriage
/// return just before it), and a final fragment without a line feed is
/// kept as written, so one trailing line feed adds no empty line.
pub open spec fn lines_acc(text: Seq<char>, cur: Seq<char>) -> Seq<Seq<char>>
    decreases text.len(),
{
    if text.len() == 0 {
        if cur.len() == 0 {
            Seq::empty()
        } else {
            seq![cur]
        }
    } else if text.first() == '\n' {
        seq![strip_cr(cur)] + lines_acc(text.drop_first(), Seq::empty())
    } else {
        lines_acc(text.drop_first(), cur.push(text.first()))
    }
}

/// The line sequence that seeds a buffer from file text.
pub open spec fn lines_of(text: Seq<char>) -> Seq<Seq<char>> {
    lines_acc(text, Seq::empty())
}

/// `joined_each(lines)` is every line followed by one line feed.
pub open spec fn joined_each(lines: Seq<Seq<char>>) -> Seq<char>
    decreases lines.len(),
{
    if lines.len() == 0 {
        Seq::empty()
    } else {
        lines.first() + seq!['\n'] + joined_each(lines.drop_first())
    }
}

/// The exact text written to the backing file for a buffer: the lines
/// joined with a line-feed separator plus one trailing line feed, which
/// for an empty buffer leaves a single line feed.
pub open spec fn file_text(lines: Seq<Seq<char>>) -> Seq<char> {
    if lines.len() == 0 {
        seq!['\n']
    } else {
        joined_each(lines)
    }
}

/// Splits file text into buffer lines, exactly as [`lines_of`] says.
pub fn split_lines(text: &str) -> (r: Vec<String>)
    ensures
        r.deep_view() == lines_of(text@),
{
    let n = text.unicode_len();
    let mut out: Vec<String> = Vec::new();
    let mut cur = String::new();
    let mut i: usize = 0;

    proof {
        assert(text@.skip(0) =~= text@);
        assert(out.deep_view() + lines_acc(text@, cur@) =~= lines_acc(text@, cur@));
    }
    while i < n
        invariant
            n == text@.len(),
            i <= n,
            lines_of(text@) == out.deep_view() + lines_acc(text@.skip(i as int), cur@),
        decreases n - i,
    {
        let c = text.get_char(i);
        proof {
            assert(text@.skip(i as int).drop_first() =~= text@.skip(i as int + 1));
        }
        if c == '\n' {
            let ghost prev_out = out.deep_view();
            let ghost cur_v = cur@;
            let cl = cur.as_str().unicode_len();
            let line = if cl > 0 && cur.as_str().get_char(cl - 1) == '\r' {
                cur.as_str().substring_char(0, cl - 1).to_owned()
            } else {
                cur
            };
            proof {
                assert(line@ =~= strip_cr(cur_v));
            }
            out.push(line);
            cur = String::new();
            proof {
                assert(out.deep_view() =~= prev_out.push(strip_cr(cur_v)));
                assert(out.deep_view() + lines_acc(text@.skip(i as int + 1), Seq::empty())
                    =~= prev_out + lines_acc(text@.skip(i as int), cur_v));
            }
        } else {
            cur.push(c);
        }
        i = i + 1;
    }

    proof {
        assert(text@.skip(n as int) =~= Seq::<char>::empty());
    }
    if !cur.as_str().is_empty() {
        let ghost prev_out = out.deep_view();
        let ghost cur_v = cur@;
        out.push(cur);
        proof {
            assert(out.deep_view() =~= prev_out.push(cur_v));
        }
    }
    proof {
        assert(out.deep_view() =~= lines_of(text@));
    }
    out
}

/// Joins buffer lines into the text written to the backing file,
/// exactly as [`file_text`] says.
pub fn join_lines(lines: &Vec<String>) -> (r: String)
    ensures
        r@ == file_text(lines.deep_view()),
{
    let mut s = String::new();
    if lines.len() == 0 {
        s.push('\n');
        return s;
    }

    let ghost dv = lines.deep_view();
    let mut i: usize = 0;
    proof {
        assert(dv.skip(0) =~= dv);
        assert(s@ + joined_each(dv) =~= joined_each(dv));
    }
    while i < lines.len()
        invariant
            dv == lines.deep_view(),
            i <= lines.len(),
            joined_each(dv) == s@ + joined_each(dv.skip(i as int)),
        decreases lines.len() - i,
    {
        proof {
            assert(dv.skip(i as int).drop_first() =~= dv.skip(i as int + 1));
        }
        s.append(lines[i].as_str());
        s.push('\n');
        i = i + 1;
        proof {
            assert(joined_each(dv) =~= s@ + joined_each(dv.skip(i as int)));
        }
    }
    proof {
        assert(dv.skip(lines.len() as int) =~= Seq::<Seq<char>>::empty());
        assert(s@ =~= joined_each(dv));
    }
    s
}

} // verus!
