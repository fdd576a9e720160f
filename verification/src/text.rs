//! Text that a command printed: decoding it and dividing it into lines.

use crate::error::ShellError;
use vstd::prelude::*;
use vstd::utf8::{decode_utf8, valid_utf8};

verus! {

/// Decodes what a command printed. The bytes are valid UTF-8 or the whole of
/// them is refused.
pub fn decode(bytes: Vec<u8>) -> (r: Result<String, ShellError>)
    ensures
        r is Ok <==> valid_utf8(bytes@),
        r matches Ok(text) ==> text@ == decode_utf8(bytes@),
        r matches Err(e) ==> e == ShellError::Decode,
{
    match String::from_utf8(bytes) {
        Ok(text) => Ok(text),
        Err(_) => Err(ShellError::Decode),
    }
}

/// The index of the first line feed in `s`, or `s.len()` where it holds none.
pub open spec fn first_line_feed(s: Seq<char>) -> int
    decreases s.len(),
{
    if s.len() == 0 || s[0] == '\n' {
        0
    } else {
        1 + first_line_feed(s.drop_first())
    }
}

/// `line` without the carriage return at its end, if it has one.
pub open spec fn without_carriage_return(line: Seq<char>) -> Seq<char> {
    if line.len() > 0 && line.last() == '\r' {
        line.drop_last()
    } else {
        line
    }
}

/// The lines of `s`.
///
/// A line ends at a line feed, or at a carriage return directly followed by a
/// line feed; neither belongs to the line. What follows the last line feed is
/// a line too unless it is empty, and it keeps a carriage return at its end.
pub open spec fn lines_of(s: Seq<char>) -> Seq<Seq<char>>
    decreases s.len(),
{
    let k = first_line_feed(s);
    if s.len() == 0 {
        Seq::empty()
    } else if 0 <= k < s.len() {
        seq![without_carriage_return(s.subrange(0, k))] + lines_of(
            s.subrange(k + 1, s.len() as int),
        )
    } else {
        seq![s]
    }
}

/// The first line feed of `s` is at `k` when `s[k]` is one and nothing before
/// it is.
proof fn lemma_first_line_feed_at(s: Seq<char>, k: int)
    requires
        0 <= k < s.len(),
        s[k] == '\n',
        forall|j: int| 0 <= j < k ==> s[j] != '\n',
    ensures
        first_line_feed(s) == k,
    decreases k,
{
    if k > 0 {
        let t = s.drop_first();
        assert forall|j: int| 0 <= j < k - 1 implies t[j] != '\n' by {
        }
        lemma_first_line_feed_at(t, k - 1);
    }
}

/// Where `s` holds no line feed, its first line feed is at `s.len()`.
proof fn lemma_first_line_feed_none(s: Seq<char>)
    requires
        forall|j: int| 0 <= j < s.len() ==> s[j] != '\n',
    ensures
        first_line_feed(s) == s.len(),
    decreases s.len(),
{
    if s.len() > 0 {
        let t = s.drop_first();
        assert forall|j: int| 0 <= j < t.len() implies t[j] != '\n' by {
        }
        lemma_first_line_feed_none(t);
    }
}

/// The first line feed of `s` lies within `s` or at its end, nothing before it
/// is a line feed, and where it lies within `s` it is one.
pub proof fn lemma_first_line_feed(s: Seq<char>)
    ensures
        0 <= first_line_feed(s) <= s.len(),
        forall|j: int| 0 <= j < first_line_feed(s) ==> s[j] != '\n',
        first_line_feed(s) < s.len() ==> s[first_line_feed(s)] == '\n',
    decreases s.len(),
{
    if s.len() > 0 && s[0] != '\n' {
        let t = s.drop_first();
        lemma_first_line_feed(t);
        assert forall|j: int| 0 <= j < first_line_feed(s) implies s[j] != '\n' by {
            if j > 0 {
                assert(s[j] == t[j - 1]);
            }
        }
    }
}

/// No line of a text holds a line feed.
pub proof fn law_lines_hold_no_line_feed(s: Seq<char>)
    ensures
        forall|i: int| 0 <= i < lines_of(s).len() ==> !(#[trigger] lines_of(s)[i]).contains('\n'),
    decreases s.len(),
{
    let k = first_line_feed(s);
    lemma_first_line_feed(s);
    if s.len() > 0 {
        if k < s.len() {
            let first = without_carriage_return(s.subrange(0, k));
            let rest = lines_of(s.subrange(k + 1, s.len() as int));
            law_lines_hold_no_line_feed(s.subrange(k + 1, s.len() as int));
            assert forall|i: int| 0 <= i < lines_of(s).len() implies !(#[trigger] lines_of(
                s,
            )[i]).contains('\n') by {
                if i == 0 {
                    assert forall|j: int| 0 <= j < first.len() implies first[j] != '\n' by {
                    }
                } else {
                }
            }
        } else {
        }
    }
}

/// Divides `text` into its lines.
pub fn split_lines(text: &str) -> (lines: Vec<String>)
    ensures
        lines.deep_view() == lines_of(text@),
{
    let mut out: Vec<String> = Vec::new();
    let mut line = String::new();
    // A carriage return has been read and not yet been put into `line`.
    let mut held_cr = false;
    let ghost mut start: int = 0;
    proof {
        assert(text@.subrange(0, text@.len() as int) == text@);
    }
    for c in it: text.chars()
        invariant
            it.seq() == text@,
            0 <= start <= it.index() <= text@.len(),
            forall|j: int| start <= j < it.index() ==> text@[j] != '\n',
            line@ + (if held_cr {
                seq!['\r']
            } else {
                Seq::<char>::empty()
            }) == text@.subrange(start, it.index() as int),
            line@.len() > 0 && line@.last() == '\r' ==> held_cr,
            out.deep_view() + lines_of(text@.subrange(start, text@.len() as int)) == lines_of(
                text@,
            ),
    {
        let ghost i = it.index() as int;
        let ghost rest = text@.subrange(start, text@.len() as int);
        let ghost read = text@.subrange(start, i);
        if c == '\n' {
            proof {
                // The line feed at `i` is the first one of `rest`, so the
                // first line of `rest` is `read` without its carriage return,
                // which is `line`.
                lemma_first_line_feed_at(rest, i - start);
                assert(rest.subrange(0, i - start) == read);
                assert(rest.subrange(i - start + 1, rest.len() as int) == text@.subrange(
                    i + 1,
                    text@.len() as int,
                ));
                assert(without_carriage_return(read) == line@);
                assert(lines_of(rest) == seq![line@] + lines_of(
                    text@.subrange(i + 1, text@.len() as int),
                ));
            }
            out.push(line);
            line = String::new();
            held_cr = false;
            proof {
                start = i + 1;
            }
        } else {
            if held_cr {
                line.push('\r');
            }
            if c == '\r' {
                held_cr = true;
            } else {
                held_cr = false;
                line.push(c);
            }
        }
    }
    let ghost rest = text@.subrange(start, text@.len() as int);
    if held_cr {
        line.push('\r');
    }
    proof {
        // What is left holds no line feed: it is one line, or none.
        assert(line@ == rest);
        lemma_first_line_feed_none(rest);
    }
    if !line.as_str().is_empty() {
        out.push(line);
    }
    out
}

} // verus!
