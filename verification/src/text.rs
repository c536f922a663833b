//! Text helpers shared by the commands: the characters of a string, splitting
//! into lines, joining with a separator, and trimming.

use vstd::prelude::*;
use vstd::std_specs::iter::IteratorSpec;
use vstd::string::StringExecFns;

verus! {

/// The texts held by a sequence of strings.
pub open spec fn texts(strings: Seq<String>) -> Seq<Seq<char>> {
    Seq::new(strings.len(), |i: int| strings[i]@)
}

/// The text of a string that may be absent.
pub open spec fn text_view(text: Option<String>) -> Option<Seq<char>> {
    match text {
        Some(text) => Some(text@),
        None => None,
    }
}

/// `parts` written one after another, with `sep` between each two neighbours.
pub open spec fn join(parts: Seq<Seq<char>>, sep: Seq<char>) -> Seq<char>
    decreases parts.len(),
{
    if parts.len() == 0 {
        Seq::empty()
    } else if parts.len() == 1 {
        parts[0]
    } else {
        join(parts.drop_last(), sep) + sep + parts.last()
    }
}

/// The number of characters before the first line feed of `text`, or the
/// length of `text` when it holds no line feed.
pub open spec fn line_end(text: Seq<char>) -> nat
    decreases text.len(),
{
    if text.len() == 0 || text[0] == '\n' {
        0
    } else {
        1 + line_end(text.drop_first())
    }
}

/// `line` without the carriage return that ends it, if one does.
pub open spec fn without_carriage_return(line: Seq<char>) -> Seq<char> {
    if line.len() > 0 && line.last() == '\r' {
        line.drop_last()
    } else {
        line
    }
}

/// The lines of `text`.
///
/// A line ends at a line feed, or at a carriage return directly followed by a
/// line feed; neither belongs to the line. The last line needs no line
/// ending, and a carriage return that ends it without a line feed stays part
/// of it. Text that ends with a line ending has no further, empty line.
pub open spec fn lines(text: Seq<char>) -> Seq<Seq<char>>
    decreases text.len(),
{
    if text.len() == 0 {
        Seq::empty()
    } else {
        let end = line_end(text);
        if end >= text.len() {
            seq![text]
        } else {
            seq![without_carriage_return(text.subrange(0, end as int))] + lines(
                text.subrange(end as int + 1, text.len() as int),
            )
        }
    }
}

/// `line_end` is the position `k` once no line feed stands before `k` and
/// `k` is either a line feed or the end of the text.
pub proof fn lemma_line_end(text: Seq<char>, k: int)
    requires
        0 <= k <= text.len(),
        forall|i: int| 0 <= i < k ==> text[i] != '\n',
        k < text.len() ==> text[k] == '\n',
    ensures
        line_end(text) == k,
    decreases k,
{
    if k > 0 {
        let rest = text.drop_first();
        assert forall|i: int| 0 <= i < k - 1 implies rest[i] != '\n' by {
            assert(rest[i] == text[i + 1]);
        }
        lemma_line_end(rest, k - 1);
    }
}

/// What `str::trim` leaves of `text`: the text without the whitespace that
/// leads and trails it.
pub uninterp spec fn trimmed(text: Seq<char>) -> Seq<char>;

/// Removes leading and trailing whitespace with `str::trim`. What counts as
/// whitespace is decided there; the result depends on the text alone.
#[verifier::external_body]
pub(crate) fn trim(text: &str) -> (inner: &str)
    ensures
        inner@ == trimmed(text@),
{
    text.trim()
}

/// Appends one character to `text`, as `String::push` does.
#[verifier::external_body]
fn push_char(text: &mut String, c: char)
    ensures
        final(text)@ == old(text)@.push(c),
{
    text.push(c)
}

/// The characters of `text`, in order.
pub fn chars_of(text: &str) -> (chars: Vec<char>)
    ensures
        chars@ == text@,
{
    let mut chars: Vec<char> = Vec::new();
    for c in it: text.chars()
        invariant
            it.seq() == text@,
            chars@ == text@.take(it.index()),
    {
        chars.push(c);
    }
    assert(text@.take(text@.len() as int) == text@);
    chars
}

/// The string made of `chars[from..to]`.
pub fn text_of(chars: &Vec<char>, from: usize, to: usize) -> (text: String)
    requires
        from <= to <= chars.len(),
    ensures
        text@ == chars@.subrange(from as int, to as int),
{
    let mut text = String::new();
    let mut i: usize = from;
    while i < to
        invariant
            from <= i <= to <= chars.len(),
            text@ == chars@.subrange(from as int, i as int),
        decreases to - i,
    {
        push_char(&mut text, chars[i]);
        i += 1;
    }
    text
}

/// Splits `text` into its lines.
pub fn split_lines(text: &str) -> (result: Vec<String>)
    ensures
        texts(result@) == lines(text@),
{
    let chars = chars_of(text);
    let mut result: Vec<String> = Vec::new();
    let mut start: usize = 0;
    assert(chars@.subrange(0, chars.len() as int) == chars@);
    assert(texts(result@) + lines(text@) == lines(text@));
    while start < chars.len()
        invariant
            start <= chars.len(),
            chars@ == text@,
            texts(result@) + lines(chars@.subrange(start as int, chars.len() as int)) == lines(
                text@,
            ),
        decreases chars.len() - start,
    {
        let ghost rest = chars@.subrange(start as int, chars.len() as int);
        let mut end: usize = start;
        while end < chars.len() && chars[end] != '\n'
            invariant
                start <= end <= chars.len(),
                forall|i: int| start <= i < end ==> chars[i] != '\n',
            decreases chars.len() - end,
        {
            end += 1;
        }
        proof {
            lemma_line_end(rest, end - start);
        }
        let ghost before = texts(result@);
        if end == chars.len() {
            let line = text_of(&chars, start, end);
            result.push(line);
            start = end;
            assert(line@ == rest);
            assert(lines(chars@.subrange(start as int, chars.len() as int)) == Seq::<
                Seq<char>,
            >::empty());
            assert(texts(result@) == before + seq![rest]);
        } else {
            let stop = if end > start && chars[end - 1] == '\r' {
                end - 1
            } else {
                end
            };
            let line = text_of(&chars, start, stop);
            result.push(line);
            assert(rest.subrange(0, end - start) == chars@.subrange(start as int, end as int));
            assert(line@ == without_carriage_return(rest.subrange(0, end - start)));
            assert(rest.subrange(end - start + 1, rest.len() as int) == chars@.subrange(
                end + 1,
                chars.len() as int,
            ));
            start = end + 1;
            assert(texts(result@) == before + seq![line@]);
        }
    }
    assert(lines(chars@.subrange(start as int, chars.len() as int)) == Seq::<Seq<char>>::empty());
    result
}

/// Joins `parts` with `sep` between them.
pub fn join_with(parts: &Vec<String>, sep: &str) -> (joined: String)
    ensures
        joined@ == join(texts(parts@), sep@),
{
    let mut joined = String::new();
    let mut i: usize = 0;
    while i < parts.len()
        invariant
            i <= parts.len(),
            joined@ == join(texts(parts@).take(i as int), sep@),
        decreases parts.len() - i,
    {
        let ghost done = texts(parts@).take(i as int);
        let ghost next = texts(parts@).take(i + 1);
        assert(next.drop_last() == done);
        assert(next.last() == parts@[i as int]@);
        if i > 0 {
            joined.append(sep);
        } else {
            assert(next.len() == 1);
            assert(join(next, sep@) == next[0]);
            assert(joined@ + parts@[i as int]@ == parts@[i as int]@);
        }
        joined.append(parts[i].as_str());
        i += 1;
    }
    assert(texts(parts@).take(parts.len() as int) == texts(parts@));
    joined
}

} // verus!
