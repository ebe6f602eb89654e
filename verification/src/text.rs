//! Small text operations.
use vstd::prelude::*;

verus! {

/// The characters with the Unicode property `White_Space`.
pub open spec fn white_space(c: char) -> bool {
    ||| '\u{9}' <= c <= '\u{d}'
    ||| c == '\u{20}'
    ||| c == '\u{85}'
    ||| c == '\u{a0}'
    ||| c == '\u{1680}'
    ||| '\u{2000}' <= c <= '\u{200a}'
    ||| c == '\u{2028}'
    ||| c == '\u{2029}'
    ||| c == '\u{202f}'
    ||| c == '\u{205f}'
    ||| c == '\u{3000}'
}

/// Text without the white space at its two ends.
pub open spec fn trimmed(text: Seq<char>) -> Seq<char>
    decreases text.len(),
{
    if text.len() > 0 && white_space(text.first()) {
        trimmed(text.drop_first())
    } else if text.len() > 0 && white_space(text.last()) {
        trimmed(text.drop_last())
    } else {
        text
    }
}

/// The position of the first `mark`, or the length of the text if it has none.
pub open spec fn first_position(text: Seq<char>, mark: char) -> int
    decreases text.len(),
{
    if text.len() == 0 || text.first() == mark {
        0
    } else {
        1 + first_position(text.drop_first(), mark)
    }
}

/// What stands before and after the first `mark`, if the text has one.
pub open spec fn halves(text: Seq<char>, mark: char) -> Option<(Seq<char>, Seq<char>)> {
    let at = first_position(text, mark);
    if at < text.len() {
        Some((text.take(at), text.skip(at + 1)))
    } else {
        None
    }
}

/// The first `mark` stands where `first_position` says, and not before.
proof fn lemma_first_position(text: Seq<char>, mark: char)
    ensures
        0 <= first_position(text, mark) <= text.len(),
        first_position(text, mark) < text.len() ==> text[first_position(text, mark)] == mark,
        forall|i: int| 0 <= i < first_position(text, mark) ==> text[i] != mark,
    decreases text.len(),
{
    if text.len() > 0 && text.first() != mark {
        lemma_first_position(text.drop_first(), mark);
        assert forall|i: int| 0 <= i < first_position(text, mark) implies text[i] != mark by {
            if i > 0 {
                assert(text.drop_first()[i - 1] != mark);
            }
        }
    }
}

/// A position with `mark` and none before it is the first.
proof fn lemma_is_first_position(text: Seq<char>, mark: char, at: int)
    requires
        0 <= at <= text.len(),
        at < text.len() ==> text[at] == mark,
        forall|i: int| 0 <= i < at ==> text[i] != mark,
    ensures
        first_position(text, mark) == at,
{
    lemma_first_position(text, mark);
    let found = first_position(text, mark);
    if found < at {
        assert(text[found] != mark);
    }
    if at < found {
        assert(text[at] != mark);
    }
}

/// Trimming takes white space off the two ends and nothing else, and leaves none
/// there.
pub proof fn law_trimming_takes_white_space_only(text: Seq<char>) -> (range: (int, int))
    ensures
        0 <= range.0 <= range.1 <= text.len(),
        trimmed(text) == text.subrange(range.0, range.1),
        forall|i: int| 0 <= i < range.0 ==> white_space(#[trigger] text[i]),
        forall|i: int| range.1 <= i < text.len() ==> white_space(#[trigger] text[i]),
        range.0 < range.1 ==> !white_space(text[range.0]) && !white_space(text[range.1 - 1]),
    decreases text.len(),
{
    if text.len() > 0 && white_space(text.first()) {
        let inner = text.drop_first();
        let range = law_trimming_takes_white_space_only(inner);
        let found = (range.0 + 1, range.1 + 1);
        assert(inner.subrange(range.0, range.1) =~= text.subrange(found.0, found.1));
        assert forall|i: int| 0 <= i < found.0 implies white_space(#[trigger] text[i]) by {
            if i > 0 {
                assert(inner[i - 1] == text[i]);
            }
        }
        assert forall|i: int| found.1 <= i < text.len() implies white_space(#[trigger] text[i]) by {
            assert(inner[i - 1] == text[i]);
        }
        found
    } else if text.len() > 0 && white_space(text.last()) {
        let inner = text.drop_last();
        let range = law_trimming_takes_white_space_only(inner);
        assert(inner.subrange(range.0, range.1) =~= text.subrange(range.0, range.1));
        assert forall|i: int| 0 <= i < range.0 implies white_space(#[trigger] text[i]) by {
            assert(inner[i] == text[i]);
        }
        assert forall|i: int| range.1 <= i < text.len() implies white_space(#[trigger] text[i]) by {
            if i < inner.len() {
                assert(inner[i] == text[i]);
            }
        }
        range
    } else {
        assert(text.subrange(0, text.len() as int) =~= text);
        (0, text.len() as int)
    }
}

/// Splitting works on exactly the texts that have the mark, splits at the first one,
/// and loses nothing.
pub proof fn law_halves_join(text: Seq<char>, mark: char)
    ensures
        halves(text, mark) is Some <==> text.contains(mark),
        halves(text, mark) matches Some((before, after)) ==> before + seq![mark] + after == text
            && !before.contains(mark),
{
    lemma_first_position(text, mark);
    let at = first_position(text, mark);
    if text.contains(mark) {
        let i = choose|i: int| 0 <= i < text.len() && text[i] == mark;
        assert(at <= i);
    }
    if at < text.len() {
        assert(text[at] == mark);
        assert(text.take(at) + seq![mark] + text.skip(at + 1) =~= text);
    }
}

/// The characters of a string.
pub fn chars_of(text: &str) -> (chars: Vec<char>)
    ensures
        chars@ == text@,
{
    let mut chars: Vec<char> = Vec::new();
    for c in it: text.chars()
        invariant
            it.seq() == text@,
            chars@ == text@.take(it.index() as int),
    {
        chars.push(c);
        assert(text@.take(it.index() + 1) =~= text@.take(it.index() as int).push(c));
    }
    assert(text@.take(text@.len() as int) =~= text@);
    chars
}

/// Whether a character is white space.
fn is_white_space(c: char) -> (white: bool)
    ensures
        white == white_space(c),
{
    ('\u{9}' <= c && c <= '\u{d}') || c == '\u{20}' || c == '\u{85}' || c == '\u{a0}' || c
        == '\u{1680}' || ('\u{2000}' <= c && c <= '\u{200a}') || c == '\u{2028}' || c == '\u{2029}'
        || c == '\u{202f}' || c == '\u{205f}' || c == '\u{3000}'
}

/// A copy of the text without the white space at its ends.
pub fn trim(text: &String) -> (inner: String)
    ensures
        inner@ == trimmed(text@),
{
    let chars = chars_of(text.as_str());
    let mut start: usize = 0;
    let mut end: usize = chars.len();
    assert(chars@.subrange(0, end as int) =~= text@);
    while start < end && is_white_space(chars[start])
        invariant
            start <= end == chars.len(),
            trimmed(chars@.subrange(start as int, end as int)) == trimmed(text@),
        decreases end - start,
    {
        assert(chars@.subrange(start as int, end as int).drop_first() =~= chars@.subrange(
            start + 1,
            end as int,
        ));
        start += 1;
    }
    while start < end && is_white_space(chars[end - 1])
        invariant
            start <= end <= chars.len(),
            start < end ==> !white_space(chars@[start as int]),
            trimmed(chars@.subrange(start as int, end as int)) == trimmed(text@),
        decreases end - start,
    {
        assert(chars@.subrange(start as int, end as int).drop_last() =~= chars@.subrange(
            start as int,
            end - 1,
        ));
        end -= 1;
    }
    text.as_str().substring_char(start, end).to_owned()
}

/// The text before and after the first `mark`, if there is one.
pub fn split_once(text: &String, mark: char) -> (parts: Option<(String, String)>)
    ensures
        parts is Some <==> halves(text@, mark) is Some,
        parts matches Some((before, after)) ==> halves(text@, mark) == Some((before@, after@)),
{
    let chars = chars_of(text.as_str());
    let mut at: usize = 0;
    while at < chars.len() && chars[at] != mark
        invariant
            at <= chars.len(),
            forall|i: int| 0 <= i < at ==> chars@[i] != mark,
        decreases chars.len() - at,
    {
        at += 1;
    }
    proof {
        lemma_is_first_position(chars@, mark, at as int);
    }
    if at < chars.len() {
        let before = text.as_str().substring_char(0, at).to_owned();
        let after = text.as_str().substring_char(at + 1, chars.len()).to_owned();
        assert(before@ =~= text@.take(at as int));
        assert(after@ =~= text@.skip(at + 1));
        Some((before, after))
    } else {
        None
    }
}

} // verus!
