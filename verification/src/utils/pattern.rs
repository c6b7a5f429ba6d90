//! Searching a text for a pattern. The search itself is the regex crate's;
//! what is stated of it here is taken on trust and is all that the rest of
//! the library knows of it.

use vstd::prelude::*;

verus! {

/// A range of a text: the bytes from offset `start` up to, not including,
/// offset `end`.
#[derive(Debug, Clone, Copy, PartialEq, Eq, Structural)]
pub struct Span {
    pub start: usize,
    pub end: usize,
}

/// One match of a pattern with a capture group: the range of the whole match
/// and the range that the first group matched.
#[derive(Debug, Clone, Copy, PartialEq, Eq, Structural)]
pub struct Capture {
    pub whole: Span,
    pub group: Span,
}

/// The pattern could not be compiled.
#[derive(Debug, Clone, Copy, PartialEq, Eq, Structural)]
pub struct Rejected;

impl Span {
    /// The range lies in a text of `len` bytes.
    pub open spec fn within(self, len: nat) -> bool {
        self.start <= self.end <= len
    }
}

impl Capture {
    /// Both ranges lie in a text of `len` bytes.
    pub open spec fn within(self, len: nat) -> bool {
        self.whole.within(len) && self.group.within(len)
    }
}

/// The ranges lie in a text of `len` bytes, one after the other without
/// overlap.
pub open spec fn in_order(spans: Seq<Span>, len: nat) -> bool {
    &&& forall|i: int| 0 <= i < spans.len() ==> (#[trigger] spans[i]).within(len)
    &&& forall|i: int, j: int|
        0 <= i < j < spans.len() ==> (#[trigger] spans[i]).end <= (#[trigger] spans[j]).start
}

/// The successive matches of `pattern` in `text`, from left to right, or
/// `Err` where `pattern` does not compile.
pub uninterp spec fn pattern_matches(pattern: Seq<char>, text: Seq<u8>) -> Result<
    Seq<Span>,
    Rejected,
>;

/// The leftmost match of `pattern` in `text` together with its first capture
/// group; `Ok(None)` where nothing matches or the group took no part in the
/// match, `Err` where `pattern` does not compile.
pub uninterp spec fn pattern_capture(pattern: Seq<char>, text: Seq<u8>) -> Result<
    Option<Capture>,
    Rejected,
>;

/// Compiles `pattern` with `regex::bytes::Regex::new` and collects what
/// `Regex::find_iter` yields on `text`.
///
/// Trusted: the result is a function of the two arguments (the name
/// `pattern_matches`); every match is a range of `text` with
/// `start <= end`, and each match begins at or after the end of the one
/// before it.
#[verifier::external_body]
pub(crate) fn find_all(pattern: &str, text: &[u8]) -> (found: Result<Vec<Span>, Rejected>)
    ensures
        match found {
            Ok(spans) => pattern_matches(pattern@, text@) == Ok::<Seq<Span>, Rejected>(spans@),
            Err(e) => pattern_matches(pattern@, text@) == Err::<Seq<Span>, Rejected>(e),
        },
        found matches Ok(spans) ==> in_order(spans@, text@.len()),
{
    match regex::bytes::Regex::new(pattern) {
        Ok(re) => Ok(re.find_iter(text).map(|m| Span { start: m.start(), end: m.end() }).collect()),
        Err(_) => Err(Rejected),
    }
}

/// Compiles `pattern` with `regex::bytes::Regex::new` and takes the whole
/// match and group 1 from what `Regex::captures` finds in `text`.
///
/// Trusted: the result is a function of the two arguments (the name
/// `pattern_capture`); both ranges are ranges of `text` with
/// `start <= end`.
#[verifier::external_body]
pub(crate) fn first_capture(pattern: &str, text: &[u8]) -> (found: Result<Option<Capture>, Rejected>)
    ensures
        found == pattern_capture(pattern@, text@),
        found matches Ok(Some(capture)) ==> capture.within(text@.len()),
{
    let re = match regex::bytes::Regex::new(pattern) {
        Ok(re) => re,
        Err(_) => return Err(Rejected),
    };
    let caps = match re.captures(text) {
        Some(caps) => caps,
        None => return Ok(None),
    };
    Ok(match (caps.get(0), caps.get(1)) {
        (Some(m), Some(g)) => Some(Capture {
            whole: Span { start: m.start(), end: m.end() },
            group: Span { start: g.start(), end: g.end() },
        }),
        _ => None,
    })
}

} // verus!
