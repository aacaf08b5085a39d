//! Work on text as sequences of characters: the first line of a tool's
//! output, trimming of white space, and search for a phrase.

use vstd::prelude::*;
use vstd::string::StrSliceExecFns;
use vstd::string::StringExecFns;

verus! {

/// Characters with the Unicode property `White_Space`.
pub open spec fn is_whitespace(c: char) -> bool {
    ||| ('\u{9}' <= c && c <= '\u{d}')
    ||| c == ' '
    ||| c == '\u{85}'
    ||| c == '\u{a0}'
    ||| c == '\u{1680}'
    ||| ('\u{2000}' <= c && c <= '\u{200a}')
    ||| c == '\u{2028}'
    ||| c == '\u{2029}'
    ||| c == '\u{202f}'
    ||| c == '\u{205f}'
    ||| c == '\u{3000}'
}

/// The text before the first line feed, or all of it if it holds none.
pub open spec fn first_line(text: Seq<char>) -> Seq<char>
    decreases text.len(),
{
    if text.len() == 0 || text[0] == '\n' {
        Seq::empty()
    } else {
        seq![text[0]] + first_line(text.drop_first())
    }
}

/// The text without the white space it starts with.
pub open spec fn trim_start(text: Seq<char>) -> Seq<char>
    decreases text.len(),
{
    if text.len() > 0 && is_whitespace(text[0]) {
        trim_start(text.drop_first())
    } else {
        text
    }
}

/// The text without the white space it ends with.
pub open spec fn trim_end(text: Seq<char>) -> Seq<char>
    decreases text.len(),
{
    if text.len() > 0 && is_whitespace(text.last()) {
        trim_end(text.drop_last())
    } else {
        text
    }
}

/// The text without the white space at either end.
pub open spec fn trim(text: Seq<char>) -> Seq<char> {
    trim_end(trim_start(text))
}

/// Whether `needle` occurs in `haystack` as a run of consecutive characters.
pub open spec fn has_substring(haystack: Seq<char>, needle: Seq<char>) -> bool {
    exists|at: int|
        0 <= at && at + needle.len() <= haystack.len() && #[trigger] haystack.subrange(
            at,
            at + needle.len(),
        ) == needle
}

/// If no line feed stands before `end`, and `end` is a line feed or the end of
/// the text, the first line is what stands before `end`.
pub proof fn lemma_first_line(text: Seq<char>, end: int)
    requires
        0 <= end <= text.len(),
        forall|i: int| 0 <= i < end ==> text[i] != '\n',
        end == text.len() || text[end] == '\n',
    ensures
        first_line(text) == text.take(end),
    decreases end,
{
    if end == 0 {
        assert(text.take(0) =~= Seq::<char>::empty());
    } else {
        let rest = text.drop_first();
        assert forall|i: int| 0 <= i < end - 1 implies rest[i] != '\n' by {
            assert(rest[i] == text[i + 1]);
        }
        lemma_first_line(rest, end - 1);
        assert(seq![text[0]] + rest.take(end - 1) =~= text.take(end));
    }
}

/// If white space fills the text before `start` and none stands at `start`,
/// trimming at the start leaves what stands from `start` on.
pub proof fn lemma_trim_start(text: Seq<char>, start: int)
    requires
        0 <= start <= text.len(),
        forall|i: int| 0 <= i < start ==> is_whitespace(text[i]),
        start == text.len() || !is_whitespace(text[start]),
    ensures
        trim_start(text) == text.skip(start),
    decreases start,
{
    if start == 0 {
        assert(text.skip(0) =~= text);
    } else {
        let rest = text.drop_first();
        assert forall|i: int| 0 <= i < start - 1 implies is_whitespace(rest[i]) by {
            assert(rest[i] == text[i + 1]);
        }
        lemma_trim_start(rest, start - 1);
        assert(rest.skip(start - 1) =~= text.skip(start));
    }
}

/// If white space fills the text from `end` on and none stands before `end`,
/// trimming at the end leaves what stands before `end`.
pub proof fn lemma_trim_end(text: Seq<char>, end: int)
    requires
        0 <= end <= text.len(),
        forall|i: int| end <= i < text.len() ==> is_whitespace(text[i]),
        end == 0 || !is_whitespace(text[end - 1]),
    ensures
        trim_end(text) == text.take(end),
    decreases text.len() - end,
{
    if end == text.len() {
        assert(text.take(end) =~= text);
    } else {
        let rest = text.drop_last();
        lemma_trim_end(rest, end);
        assert(rest.take(end) =~= text.take(end));
    }
}

proof fn lemma_first_line_shape(text: Seq<char>) -> (end: int)
    ensures
        0 <= end <= text.len(),
        first_line(text) == text.take(end),
        forall|i: int| 0 <= i < end ==> text[i] != '\n',
        end < text.len() ==> text[end] == '\n',
    decreases text.len(),
{
    if text.len() == 0 || text[0] == '\n' {
        assert(text.take(0) =~= Seq::<char>::empty());
        0
    } else {
        let rest = text.drop_first();
        let inner = lemma_first_line_shape(rest);
        assert(seq![text[0]] + rest.take(inner) =~= text.take(inner + 1));
        assert forall|i: int| 0 <= i < inner + 1 implies text[i] != '\n' by {
            if i > 0 {
                assert(rest[i - 1] == text[i]);
            }
        }
        inner + 1
    }
}

proof fn lemma_trim_start_shape(text: Seq<char>) -> (start: int)
    ensures
        0 <= start <= text.len(),
        trim_start(text) == text.skip(start),
        forall|i: int| 0 <= i < start ==> is_whitespace(text[i]),
        start < text.len() ==> !is_whitespace(text[start]),
    decreases text.len(),
{
    if text.len() > 0 && is_whitespace(text[0]) {
        let rest = text.drop_first();
        let inner = lemma_trim_start_shape(rest);
        assert(rest.skip(inner) =~= text.skip(inner + 1));
        assert forall|i: int| 0 <= i < inner + 1 implies is_whitespace(text[i]) by {
            if i > 0 {
                assert(rest[i - 1] == text[i]);
            }
        }
        inner + 1
    } else {
        assert(text.skip(0) =~= text);
        0
    }
}

proof fn lemma_trim_end_shape(text: Seq<char>) -> (stop: int)
    ensures
        0 <= stop <= text.len(),
        trim_end(text) == text.take(stop),
        forall|i: int| stop <= i < text.len() ==> is_whitespace(text[i]),
        0 < stop ==> !is_whitespace(text[stop - 1]),
    decreases text.len(),
{
    if text.len() > 0 && is_whitespace(text.last()) {
        let rest = text.drop_last();
        let inner = lemma_trim_end_shape(rest);
        assert(rest.take(inner) =~= text.take(inner));
        assert forall|i: int| inner <= i < text.len() implies is_whitespace(text[i]) by {
            if i < rest.len() {
                assert(rest[i] == text[i]);
            }
        }
        if inner > 0 {
            assert(rest[inner - 1] == text[inner - 1]);
        }
        inner
    } else {
        assert(text.take(text.len() as int) =~= text);
        text.len() as int
    }
}

/// The trimmed first line of a text is a piece of the text as it stands.
/// The proof gives its place: it runs from `at.0` to `at.1`, and the line
/// ends at `at.2`. Before the piece stands white space only, no line feed
/// stands before the end of the line, the piece neither starts nor ends with
/// white space, and between the piece and the end of the line stands white
/// space only.
pub proof fn lemma_trimmed_first_line(text: Seq<char>) -> (at: (int, int, int))
    ensures
        0 <= at.0 <= at.1 <= at.2 <= text.len(),
        trim(first_line(text)) == text.subrange(at.0, at.1),
        at.2 == text.len() || text[at.2] == '\n',
        forall|i: int| 0 <= i < at.2 ==> text[i] != '\n',
        forall|i: int| 0 <= i < at.0 ==> is_whitespace(text[i]),
        forall|i: int| at.1 <= i < at.2 ==> is_whitespace(text[i]),
        at.0 < at.1 ==> !is_whitespace(text[at.0]) && !is_whitespace(text[at.1 - 1]),
{
    let end = lemma_first_line_shape(text);
    let line = text.take(end);
    let start = lemma_trim_start_shape(line);
    let tail = line.skip(start);
    let stop = lemma_trim_end_shape(tail);
    assert(tail.take(stop) =~= text.subrange(start, start + stop));
    assert forall|i: int| 0 <= i < start implies is_whitespace(text[i]) by {
        assert(line[i] == text[i]);
    }
    assert forall|i: int| start + stop <= i < end implies is_whitespace(text[i]) by {
        assert(tail[i - start] == text[i]);
    }
    if stop > 0 {
        assert(line[start] == text[start]);
        assert(tail[stop - 1] == text[start + stop - 1]);
    }
    (start, start + stop, end)
}

/// A text that is written once between a fixed head and a fixed tail can be
/// read back: equal results come from equal texts.
pub proof fn lemma_spliced_once_injective(
    head: Seq<char>,
    a: Seq<char>,
    b: Seq<char>,
    tail: Seq<char>,
)
    requires
        head + a + tail == head + b + tail,
    ensures
        a == b,
{
    let left = head + a + tail;
    let right = head + b + tail;
    assert(left.len() == right.len());
    assert(a.len() == b.len());
    assert forall|i: int| 0 <= i < a.len() implies a[i] == b[i] by {
        assert(left[head.len() + i] == a[i]);
        assert(right[head.len() + i] == b[i]);
    }
    assert(a =~= b);
}

/// Whether `c` is white space.
pub fn is_whitespace_char(c: char) -> (r: bool)
    ensures
        r == is_whitespace(c),
{
    ('\u{9}' <= c && c <= '\u{d}') || c == ' ' || c == '\u{85}' || c == '\u{a0}' || c
        == '\u{1680}' || ('\u{2000}' <= c && c <= '\u{200a}') || c == '\u{2028}' || c
        == '\u{2029}' || c == '\u{202f}' || c == '\u{205f}' || c == '\u{3000}'
}

/// The characters of a text, one by one.
pub fn chars_of(text: &str) -> (chars: Vec<char>)
    ensures
        chars@ == text@,
{
    let mut chars: Vec<char> = Vec::new();
    for c in it: text.chars()
        invariant
            it.seq() == text@,
            chars@ == text@.take(it.index() as int),
    {
        chars.push(c);
        assert(text@.take(it.index() + 1) =~= text@.take(it.index() as int).push(
            text@[it.index() as int],
        ));
    }
    assert(text@.take(text@.len() as int) =~= text@);
    chars
}

/// The first line of `text`, without the white space around it.
pub fn first_line_trimmed(text: &str) -> (line: String)
    ensures
        line@ == trim(first_line(text@)),
{
    let chars = chars_of(text);
    let n = chars.len();
    let mut end: usize = 0;
    while end < n && chars[end] != '\n'
        invariant
            n == chars.len(),
            end <= n,
            forall|i: int| 0 <= i < end ==> chars@[i] != '\n',
        decreases n - end,
    {
        end += 1;
    }
    let mut start: usize = 0;
    while start < end && is_whitespace_char(chars[start])
        invariant
            n == chars.len(),
            start <= end <= n,
            forall|i: int| 0 <= i < start ==> is_whitespace(chars@[i]),
        decreases end - start,
    {
        start += 1;
    }
    let mut stop: usize = end;
    while stop > start && is_whitespace_char(chars[stop - 1])
        invariant
            n == chars.len(),
            start <= stop <= end <= n,
            forall|i: int| stop <= i < end ==> is_whitespace(chars@[i]),
        decreases stop,
    {
        stop -= 1;
    }
    proof {
        let line = text@.take(end as int);
        lemma_first_line(text@, end as int);
        lemma_trim_start(line, start as int);
        let tail = line.skip(start as int);
        assert forall|i: int| stop - start <= i < tail.len() implies is_whitespace(tail[i]) by {
            assert(tail[i] == chars@[i + start]);
        }
        lemma_trim_end(tail, stop - start);
        assert(tail.take(stop - start) =~= text@.subrange(start as int, stop as int));
    }
    String::from_str(text.substring_char(start, stop))
}

/// Whether `needle` occurs in `haystack`.
pub fn contains_text(haystack: &str, needle: &str) -> (found: bool)
    ensures
        found == has_substring(haystack@, needle@),
{
    let hay = chars_of(haystack);
    let pat = chars_of(needle);
    let n = hay.len();
    let m = pat.len();
    if m > n {
        return false;
    }
    let mut at: usize = 0;
    while at <= n - m
        invariant
            n == hay.len(),
            m == pat.len(),
            m <= n,
            hay@ == haystack@,
            pat@ == needle@,
            forall|k: int| 0 <= k < at ==> #[trigger] hay@.subrange(k, k + m) != pat@,
        decreases n - at,
    {
        let mut j: usize = 0;
        while j < m && hay[at + j] == pat[j]
            invariant
                n == hay.len(),
                m == pat.len(),
                at + m <= n,
                j <= m,
                forall|i: int| 0 <= i < j ==> hay@[at + i] == pat@[i],
            decreases m - j,
        {
            j += 1;
        }
        if j == m {
            assert(hay@.subrange(at as int, at + m) =~= pat@);
            return true;
        }
        assert(hay@.subrange(at as int, at + m)[j as int] != pat@[j as int]);
        at += 1;
    }
    false
}

} // verus!
