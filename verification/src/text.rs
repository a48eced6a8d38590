//! Searching in character sequences.
//!
//! Strings are viewed as sequences of characters (`Seq<char>`). The functions
//! here decide where one sequence occurs in another, and are what the query
//! checks of the library are built from.

use vstd::prelude::*;
use vstd::string::*;
use vstd::utf8::*;

verus! {

/// `pattern` stands in `text` at position `at`.
pub open spec fn occurs_at(text: Seq<char>, pattern: Seq<char>, at: int) -> bool {
    &&& 0 <= at
    &&& at + pattern.len() <= text.len()
    &&& text.subrange(at, at + pattern.len()) == pattern
}

/// `text` begins with `pattern`.
pub open spec fn begins_with(text: Seq<char>, pattern: Seq<char>) -> bool {
    occurs_at(text, pattern, 0)
}

/// `pattern` stands somewhere in `text`.
pub open spec fn includes(text: Seq<char>, pattern: Seq<char>) -> bool {
    exists|at: int| occurs_at(text, pattern, at)
}

/// The part of `text` between the byte offsets `start` and `end` of its UTF-8
/// encoding. There is none unless both offsets lie inside the text, in
/// order, and each at the first byte of a character or at the end.
pub open spec fn byte_slice(text: Seq<char>, start: int, end: int) -> Option<Seq<char>> {
    let bytes = encode_utf8(text);
    if 0 <= start <= end && is_char_boundary(bytes, start) && is_char_boundary(bytes, end) {
        Some(decode_utf8(bytes.subrange(start, end)))
    } else {
        None
    }
}

/// The characters of a string, in order.
pub fn chars_of(text: &str) -> (chars: Vec<char>)
    ensures
        chars@ == text@,
{
    broadcast use axiom_spec_iter;

    let mut chars: Vec<char> = Vec::new();
    for c in it: text.chars()
        invariant
            it.seq() == text@,
            chars@ == text@.take(it.index()),
    {
        chars.push(c);
    }
    chars
}

/// Whether two character slices hold the same characters.
pub fn same_chars(a: &[char], b: &[char]) -> (same: bool)
    ensures
        same == (a@ == b@),
{
    if a.len() != b.len() {
        return false;
    }
    let mut i: usize = 0;
    while i < a.len()
        invariant
            a@.len() == b@.len(),
            i <= a@.len(),
            a@.take(i as int) == b@.take(i as int),
        decreases a@.len() - i,
    {
        if a[i] != b[i] {
            return false;
        }
        i += 1;
    }
    assert(a@ == a@.take(a@.len() as int));
    assert(b@ == b@.take(b@.len() as int));
    true
}

/// Whether two strings hold the same characters.
pub fn same_text(a: &str, b: &str) -> (same: bool)
    ensures
        same == (a@ == b@),
{
    let a_chars = chars_of(a);
    let b_chars = chars_of(b);
    same_chars(a_chars.as_slice(), b_chars.as_slice())
}

/// Whether `pattern` stands in `text` at position `at`.
pub fn matches_at(text: &[char], pattern: &[char], at: usize) -> (found: bool)
    ensures
        found == occurs_at(text@, pattern@, at as int),
{
    if at > text.len() || pattern.len() > text.len() - at {
        return false;
    }
    let ghost window = text@.subrange(at as int, at + pattern@.len());
    let mut i: usize = 0;
    while i < pattern.len()
        invariant
            at + pattern@.len() <= text@.len() <= usize::MAX,
            window == text@.subrange(at as int, at + pattern@.len()),
            i <= pattern@.len(),
            window.take(i as int) == pattern@.take(i as int),
        decreases pattern@.len() - i,
    {
        if text[at + i] != pattern[i] {
            return false;
        }
        i += 1;
    }
    assert(window == window.take(window.len() as int));
    assert(pattern@ == pattern@.take(pattern@.len() as int));
    true
}

/// Whether `text` begins with `pattern`.
pub fn starts_with(text: &[char], pattern: &[char]) -> (found: bool)
    ensures
        found == begins_with(text@, pattern@),
{
    matches_at(text, pattern, 0)
}

/// Whether `pattern` stands somewhere in `text`.
pub fn contains(text: &[char], pattern: &[char]) -> (found: bool)
    ensures
        found == includes(text@, pattern@),
{
    if pattern.len() > text.len() {
        return false;
    }
    let last: usize = text.len() - pattern.len();
    let mut at: usize = 0;
    loop
        invariant
            last == text@.len() - pattern@.len(),
            at <= last,
            forall|k: int| 0 <= k < at ==> !occurs_at(text@, pattern@, k),
        decreases last - at,
    {
        if matches_at(text, pattern, at) {
            return true;
        }
        if at == last {
            return false;
        }
        at += 1;
    }
}

/// In valid UTF-8, an offset behind a character boundary is a boundary of the
/// whole text exactly if it is one of the text that starts at that boundary.
proof fn lemma_boundary_of_tail(bytes: Seq<u8>, start: int, end: int)
    requires
        valid_utf8(bytes),
        is_char_boundary(bytes, start),
        0 <= start <= end <= bytes.len(),
    ensures
        valid_utf8(bytes.subrange(start, bytes.len() as int)),
        is_char_boundary(bytes, end) <==> is_char_boundary(
            bytes.subrange(start, bytes.len() as int),
            end - start,
        ),
{
    let tail = bytes.subrange(start, bytes.len() as int);
    valid_utf8_split(bytes, start);
    if end == bytes.len() {
        is_char_boundary_start_end_of_seq(bytes);
        is_char_boundary_start_end_of_seq(tail);
    } else {
        is_char_boundary_iff_not_is_continuation_byte(bytes, end);
        is_char_boundary_iff_not_is_continuation_byte(tail, end - start);
    }
}

/// No offset past the end of the text is a character boundary.
proof fn lemma_no_boundary_past_end(bytes: Seq<u8>, index: int)
    requires
        valid_utf8(bytes),
        index > bytes.len(),
    ensures
        !is_char_boundary(bytes, index),
{
}

/// The part of a string between two byte offsets, if there is one.
pub fn slice_bytes(text: &str, start: usize, end: usize) -> (part: Option<&str>)
    ensures
        match part {
            Some(part) => byte_slice(text@, start as int, end as int) == Some(part@),
            None => byte_slice(text@, start as int, end as int) is None,
        },
{
    let ghost bytes = encode_utf8(text@);
    proof {
        encode_utf8_valid_utf8(text@);
    }
    if start > end || end > text.as_bytes().len() {
        proof {
            if start <= end {
                lemma_no_boundary_past_end(bytes, end as int);
            }
        }
        return None;
    }
    if !text.is_char_boundary(start) {
        return None;
    }
    proof {
        lemma_boundary_of_tail(bytes, start as int, end as int);
    }
    let (_, tail) = text.split_at(start);
    if !tail.is_char_boundary(end - start) {
        return None;
    }
    let (part, _) = tail.split_at(end - start);
    proof {
        assert(part.spec_bytes() == bytes.subrange(start as int, end as int));
        encode_utf8_decode_utf8(part@);
    }
    Some(part)
}

/// The part of a string that begins at byte `offset` and is `length` bytes
/// long, if there is one.
pub fn slice_span(text: &str, offset: usize, length: usize) -> (part: Option<&str>)
    ensures
        match part {
            Some(part) => byte_slice(text@, offset as int, offset + length) == Some(part@),
            None => byte_slice(text@, offset as int, offset + length) is None,
        },
{
    match offset.checked_add(length) {
        Some(end) => slice_bytes(text, offset, end),
        None => {
            let size = text.as_bytes().len();
            proof {
                encode_utf8_valid_utf8(text@);
                lemma_no_boundary_past_end(encode_utf8(text@), offset + length);
            }
            None
        },
    }
}

} // verus!
