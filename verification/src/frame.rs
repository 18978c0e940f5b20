//! Cutting the JSON object out of one line of the click stream.
//!
//! The host writes an endless JSON array, one object per line, so a line may
//! carry an opening bracket, a comma or blanks around its object. The frame of
//! a line is the text from its first `{` through its last `}`.

use vstd::prelude::*;

verus! {

/// The frame of `line`: from the first `{` through the last `}`, both
/// included. Empty when either is missing or the last `}` comes before the
/// first `{`.
pub open spec fn object_frame(line: Seq<char>) -> Seq<char> {
    match (line.index_of_first('{'), line.index_of_last('}')) {
        (Some(open), Some(close)) => if open < close {
            line.subrange(open, close + 1)
        } else {
            Seq::empty()
        },
        _ => Seq::empty(),
    }
}

/// `at` is where the first `{` of `line` stands.
pub open spec fn is_first_open(line: Seq<char>, at: int) -> bool {
    &&& 0 <= at < line.len()
    &&& line[at] == '{'
    &&& forall|k: int| 0 <= k < at ==> line[k] != '{'
}

/// `at` is where the last `}` of `line` stands.
pub open spec fn is_last_close(line: Seq<char>, at: int) -> bool {
    &&& 0 <= at < line.len()
    &&& line[at] == '}'
    &&& forall|k: int| at < k < line.len() ==> line[k] != '}'
}

/// The first `{` is found by its position alone.
pub proof fn lemma_first_open(line: Seq<char>, at: int)
    requires
        is_first_open(line, at),
    ensures
        line.index_of_first('{') == Some(at),
{
    line.index_of_first_ensures('{');
}

/// The last `}` is found by its position alone.
pub proof fn lemma_last_close(line: Seq<char>, at: int)
    requires
        is_last_close(line, at),
    ensures
        line.index_of_last('}') == Some(at),
{
    line.index_of_last_ensures('}');
}

/// A line that lacks a `{` or a `}` has an empty frame.
pub proof fn lemma_frame_needs_both_braces(line: Seq<char>)
    requires
        !line.contains('{') || !line.contains('}'),
    ensures
        object_frame(line) == Seq::<char>::empty(),
{
    line.index_of_first_ensures('{');
    line.index_of_last_ensures('}');
}

/// A frame that is not empty is the part of the line from its first `{`
/// through its last `}`, so it opens with `{` and closes with `}`.
pub proof fn lemma_frame_shape(line: Seq<char>)
    requires
        object_frame(line).len() > 0,
    ensures
        exists|open: int, close: int|
            {
                &&& is_first_open(line, open)
                &&& is_last_close(line, close)
                &&& open < close
                &&& #[trigger] line.subrange(open, close + 1) == object_frame(line)
            },
        object_frame(line).first() == '{',
        object_frame(line).last() == '}',
{
    line.index_of_first_ensures('{');
    line.index_of_last_ensures('}');
    let open = line.index_of_first('{')->0;
    let close = line.index_of_last('}')->0;
    assert(is_first_open(line, open));
    assert(is_last_close(line, close));
    assert(line.subrange(open, close + 1) == object_frame(line));
}

/// The frame is empty exactly when the line has no `{`, or no `}` after its
/// first `{`.
pub proof fn lemma_frame_empty_iff(line: Seq<char>)
    ensures
        object_frame(line).len() == 0 <==> !(exists|open: int, close: int|
            0 <= open < close < line.len() && line[open] == '{' && line[close] == '}'),
{
    line.index_of_first_ensures('{');
    line.index_of_last_ensures('}');
    if object_frame(line).len() > 0 {
        let open = line.index_of_first('{')->0;
        let close = line.index_of_last('}')->0;
        assert(0 <= open < close < line.len() && line[open] == '{' && line[close] == '}');
    }
    if exists|open: int, close: int|
        0 <= open < close < line.len() && line[open] == '{' && line[close] == '}' {
        let (open, close) = choose|open: int, close: int|
            0 <= open < close < line.len() && line[open] == '{' && line[close] == '}';
        assert(line.contains('{'));
        assert(line.contains('}'));
        let first = line.index_of_first('{')->0;
        let last = line.index_of_last('}')->0;
        assert(first <= open);
        assert(close <= last);
        assert(object_frame(line) == line.subrange(first, last + 1));
    }
}

/// `text` without the characters that stand before its first `{`. Nothing is
/// left of a text without a `{`.
pub open spec fn trim_to_open(text: Seq<char>) -> Seq<char>
    decreases text.len(),
{
    if text.len() == 0 || text[0] == '{' {
        text
    } else {
        trim_to_open(text.drop_first())
    }
}

/// `text` without the characters that stand after its last `}`. Nothing is
/// left of a text without a `}`.
pub open spec fn trim_to_close(text: Seq<char>) -> Seq<char>
    decreases text.len(),
{
    if text.len() == 0 || text.last() == '}' {
        text
    } else {
        trim_to_close(text.drop_last())
    }
}

/// Trimming up to the first `{` keeps the text from there on.
pub proof fn lemma_trim_to_open(text: Seq<char>)
    ensures
        trim_to_open(text) == match text.index_of_first('{') {
            Some(open) => text.subrange(open, text.len() as int),
            None => Seq::<char>::empty(),
        },
    decreases text.len(),
{
    text.index_of_first_ensures('{');
    if text.len() == 0 {
    } else if text[0] == '{' {
        lemma_first_open(text, 0);
        assert(text.subrange(0, text.len() as int) == text);
    } else {
        let rest = text.drop_first();
        lemma_trim_to_open(rest);
        rest.index_of_first_ensures('{');
        match rest.index_of_first('{') {
            Some(open) => {
                assert(rest.contains('{'));
                assert(text[open + 1] == rest[open]);
                assert forall|k: int| 0 <= k < open + 1 implies text[k] != '{' by {
                    if k > 0 {
                        assert(text[k] == rest[k - 1]);
                    }
                }
                lemma_first_open(text, open + 1);
                assert(rest.subrange(open, rest.len() as int) == text.subrange(
                    open + 1,
                    text.len() as int,
                ));
            },
            None => {
                assert forall|k: int| 0 <= k < text.len() implies text[k] != '{' by {
                    if k > 0 {
                        assert(text[k] == rest[k - 1]);
                    }
                }
            },
        }
    }
}

/// Trimming back to the last `}` keeps the text up to there.
pub proof fn lemma_trim_to_close(text: Seq<char>)
    ensures
        trim_to_close(text) == match text.index_of_last('}') {
            Some(close) => text.subrange(0, close + 1),
            None => Seq::<char>::empty(),
        },
    decreases text.len(),
{
    text.index_of_last_ensures('}');
    if text.len() == 0 {
    } else if text.last() == '}' {
        lemma_last_close(text, text.len() - 1);
        assert(text.subrange(0, text.len() as int) == text);
    } else {
        let rest = text.drop_last();
        lemma_trim_to_close(rest);
        rest.index_of_last_ensures('}');
        match rest.index_of_last('}') {
            Some(close) => {
                assert(text[close] == rest[close]);
                assert forall|k: int| close < k < text.len() implies text[k] != '}' by {
                    if k < rest.len() {
                        assert(text[k] == rest[k]);
                    }
                }
                lemma_last_close(text, close);
                assert(rest.subrange(0, close + 1) == text.subrange(0, close + 1));
            },
            None => {
                assert forall|k: int| 0 <= k < text.len() implies text[k] != '}' by {
                    if k < rest.len() {
                        assert(text[k] == rest[k]);
                    }
                }
            },
        }
    }
}

/// The frame is what two trims leave: first everything before the first `{`
/// goes, then everything after the last `}` of what remains.
pub proof fn lemma_frame_is_trimmed_line(line: Seq<char>)
    ensures
        object_frame(line) == trim_to_close(trim_to_open(line)),
{
    line.index_of_first_ensures('{');
    line.index_of_last_ensures('}');
    lemma_trim_to_open(line);
    let tail = trim_to_open(line);
    lemma_trim_to_close(tail);
    tail.index_of_last_ensures('}');
    match line.index_of_first('{') {
        Some(open) => {
            assert(tail == line.subrange(open, line.len() as int));
            match tail.index_of_last('}') {
                Some(close) => {
                    assert(line[open + close] == tail[close]);
                    assert forall|k: int| open + close < k < line.len() implies line[k]
                        != '}' by {
                        assert(line[k] == tail[k - open]);
                    }
                    lemma_last_close(line, open + close);
                    assert(tail.subrange(0, close + 1) == line.subrange(open, open + close + 1));
                },
                None => {
                    if line.index_of_last('}') is Some {
                        let last = line.index_of_last('}')->0;
                        if open < last {
                            assert(tail[last - open] == line[last]);
                        }
                    }
                },
            }
        },
        None => {},
    }
}

/// Returns the frame of `line` as a slice of it.
#[allow(unused_variables)]
pub fn extract_object(line: &str) -> (frame: &str)
    ensures
        frame@ == object_frame(line@),
{
    // Only the proof needs the count: it keeps every position within `usize`.
    let total: usize = line.unicode_len();
    let mut open: Option<usize> = None;
    let mut end: usize = 0;
    let mut at: usize = 0;
    for c in it: line.chars()
        invariant
            at == it.index(),
            it.seq() == line@,
            total == line@.len(),
            match open {
                Some(o) => is_first_open(line@, o as int) && o < at,
                None => forall|k: int| 0 <= k < at ==> line@[k] != '{',
            },
            end <= at,
            end > 0 ==> line@[end - 1] == '}',
            forall|k: int| end <= k < at ==> line@[k] != '}',
    {
        if open.is_none() && c == '{' {
            open = Some(at);
        }
        if c == '}' {
            end = at + 1;
        }
        at = at + 1;
    }
    proof {
        line@.index_of_first_ensures('{');
        line@.index_of_last_ensures('}');
    }
    match open {
        Some(o) if o < end => {
            proof {
                lemma_first_open(line@, o as int);
                lemma_last_close(line@, end - 1);
            }
            line.substring_char(o, end)
        },
        _ => {
            line.substring_char(0, 0)
        },
    }
}

} // verus!
