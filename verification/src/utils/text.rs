//! Source text as a sequence of bytes: searching for a word, telling blank
//! text from text with content, and copying ranges.

use vstd::prelude::*;

verus! {

/// `word` stands in `text` at offset `at`.
pub open spec fn occurs_at(text: Seq<u8>, word: Seq<u8>, at: int) -> bool {
    &&& 0 <= at
    &&& at + word.len() <= text.len()
    &&& text.subrange(at, at + word.len()) == word
}

/// `word` stands somewhere in `text`.
pub open spec fn contains(text: Seq<u8>, word: Seq<u8>) -> bool {
    exists|at: int| occurs_at(text, word, at)
}

/// A word that stands in the middle one of three texts stands in the three
/// put together, further right by the length of the first.
pub proof fn lemma_occurs_in_middle(
    before: Seq<u8>,
    middle: Seq<u8>,
    after: Seq<u8>,
    word: Seq<u8>,
    at: int,
)
    requires
        occurs_at(middle, word, at),
    ensures
        occurs_at(before + middle + after, word, before.len() + at),
{
    let whole = before + middle + after;
    assert(whole.subrange(before.len() + at, before.len() + at + word.len()) =~= middle.subrange(
        at,
        at + word.len(),
    ));
}

/// Whether `word` stands in `text` at offset `at`.
pub fn matches_at(text: &[u8], word: &[u8], at: usize) -> (same: bool)
    requires
        at + word@.len() <= text@.len(),
    ensures
        same == occurs_at(text@, word@, at as int),
{
    let size: usize = text.len();
    let mut i: usize = 0;
    while i < word.len()
        invariant
            i <= word@.len(),
            at + word@.len() <= text@.len() == size,
            forall|k: int| 0 <= k < i ==> text@[at + k] == word@[k],
        decreases word@.len() - i,
    {
        if text[at + i] != word[i] {
            assert(text@.subrange(at as int, at + word@.len())[i as int] != word@[i as int]);
            return false;
        }
        i += 1;
    }
    assert(text@.subrange(at as int, at + word@.len()) =~= word@);
    true
}

/// Whether `word` stands somewhere in `text`.
pub fn contains_word(text: &[u8], word: &[u8]) -> (found: bool)
    ensures
        found == contains(text@, word@),
{
    if word.len() > text.len() {
        return false;
    }
    let last: usize = text.len() - word.len();
    let mut at: usize = 0;
    loop
        invariant
            last == text@.len() - word@.len(),
            at <= last,
            forall|k: int| 0 <= k < at ==> !occurs_at(text@, word@, k),
        decreases last - at,
    {
        if matches_at(text, word, at) {
            return true;
        }
        if at == last {
            return false;
        }
        at += 1;
    }
}

/// How many bytes at the head of `text` encode one white-space character
/// (a code point with the Unicode property White_Space, in UTF-8), or 0 when
/// `text` does not begin with one.
pub open spec fn space_width(text: Seq<u8>) -> int {
    if text.len() >= 1 && (0x09 <= text[0] <= 0x0d || text[0] == 0x20) {
        1
    } else if text.len() >= 2 && text[0] == 0xc2 && (text[1] == 0x85 || text[1] == 0xa0) {
        2
    } else if text.len() >= 3 && text[0] == 0xe1 && text[1] == 0x9a && text[2] == 0x80 {
        3
    } else if text.len() >= 3 && text[0] == 0xe2 && text[1] == 0x80 && (0x80 <= text[2] <= 0x8a
        || text[2] == 0xa8 || text[2] == 0xa9 || text[2] == 0xaf) {
        3
    } else if text.len() >= 3 && text[0] == 0xe2 && text[1] == 0x81 && text[2] == 0x9f {
        3
    } else if text.len() >= 3 && text[0] == 0xe3 && text[1] == 0x80 && text[2] == 0x80 {
        3
    } else {
        0
    }
}

/// `text` is empty or holds white space only.
pub open spec fn is_blank(text: Seq<u8>) -> bool
    decreases text.len(),
{
    text.len() == 0 || (space_width(text) > 0 && is_blank(text.skip(space_width(text))))
}

/// No byte of blank text is a printable ASCII character: each is a
/// control character, a space, or part of a longer encoding.
pub proof fn lemma_blank_bytes(text: Seq<u8>)
    requires
        is_blank(text),
    ensures
        forall|i: int| 0 <= i < text.len() ==> (#[trigger] text[i]) <= 0x20 || text[i] >= 0x80,
    decreases text.len(),
{
    if text.len() > 0 {
        let width = space_width(text);
        let rest = text.skip(width);
        lemma_blank_bytes(rest);
        assert forall|i: int| 0 <= i < text.len() implies (#[trigger] text[i]) <= 0x20 || text[i]
            >= 0x80 by {
            if i >= width {
                assert(rest[i - width] == text[i]);
            }
        }
    }
}

/// The width of the white-space character that `text` holds at offset `at`,
/// or 0 when there is none.
pub fn space_width_at(text: &[u8], at: usize) -> (width: usize)
    requires
        at <= text@.len(),
    ensures
        width == space_width(text@.skip(at as int)),
        at + width <= text@.len(),
{
    let rest: usize = text.len() - at;
    proof {
        assert forall|k: int| 0 <= k < rest implies text@.skip(at as int)[k] == text@[at + k] by {}
    }
    if rest >= 1 && ((0x09 <= text[at] && text[at] <= 0x0d) || text[at] == 0x20) {
        return 1;
    }
    if rest >= 2 && text[at] == 0xc2 && (text[at + 1] == 0x85 || text[at + 1] == 0xa0) {
        return 2;
    }
    if rest >= 3 {
        let a: u8 = text[at];
        let b: u8 = text[at + 1];
        let c: u8 = text[at + 2];
        if a == 0xe1 && b == 0x9a && c == 0x80 {
            return 3;
        }
        if a == 0xe2 && b == 0x80 && ((0x80 <= c && c <= 0x8a) || c == 0xa8 || c == 0xa9 || c
            == 0xaf) {
            return 3;
        }
        if a == 0xe2 && b == 0x81 && c == 0x9f {
            return 3;
        }
        if a == 0xe3 && b == 0x80 && c == 0x80 {
            return 3;
        }
    }
    0
}

/// Whether `text` is empty or holds white space only.
pub fn is_blank_text(text: &[u8]) -> (blank: bool)
    ensures
        blank == is_blank(text@),
{
    let mut at: usize = 0;
    assert(text@.skip(0) =~= text@);
    while at < text.len()
        invariant
            at <= text@.len(),
            is_blank(text@) == is_blank(text@.skip(at as int)),
        decreases text@.len() - at,
    {
        let width: usize = space_width_at(text, at);
        if width == 0 {
            return false;
        }
        assert(text@.skip(at as int).skip(width as int) =~= text@.skip(at + width));
        at += width;
    }
    assert(text@.skip(at as int).len() == 0);
    true
}

} // verus!
