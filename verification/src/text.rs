//! Helpers on text and bytes: turning a string into its characters, finding
//! the first zero byte, searching for a pattern, and strict decimal parsing.

use vstd::prelude::*;
use vstd::std_specs::iter::IteratorSpec;
use vstd::utf8::encode_utf8;

verus! {

/// The bytes that write `text` in UTF-8: what a string is in memory.
pub open spec fn bytes_of(text: Seq<char>) -> Seq<u8> {
    encode_utf8(text)
}

/// `text` without the whitespace at its two ends, as `str::trim` returns it.
pub uninterp spec fn trimmed(text: Seq<char>) -> Seq<char>;

/// The lowercase form of `text`, as `str::to_lowercase` returns it.
pub uninterp spec fn lowercased(text: Seq<char>) -> Seq<char>;

/// Calls `str::trim`, which removes leading and trailing whitespace, as
/// Unicode defines whitespace. Claimed, not proved: the slice returned is a
/// function of the text alone, here named `trimmed`.
#[verifier::external_body]
pub(crate) fn trim(text: &str) -> (inner: &str)
    ensures
        inner@ == trimmed(text@),
{
    text.trim()
}

/// Calls `str::to_lowercase`, which maps every character to its lowercase
/// form, as Unicode defines it. Claimed, not proved: the string returned is
/// a function of the text alone, here named `lowercased`.
#[verifier::external_body]
pub(crate) fn to_lowercase(text: &str) -> (lowered: String)
    ensures
        lowered@ == lowercased(text@),
{
    text.to_lowercase()
}

/// The characters of `text`, in order.
pub fn chars_of(text: &str) -> (chars: Vec<char>)
    ensures
        chars@ == text@,
{
    let mut chars: Vec<char> = Vec::new();
    let it = text.chars();
    for c in iter: it
        invariant
            chars@ == iter.seq().take(iter.index@),
    {
        chars.push(c);
    }
    chars
}

/// No byte of `bytes` is zero.
pub open spec fn nul_free(bytes: Seq<u8>) -> bool {
    forall|i: int| 0 <= i < bytes.len() ==> bytes[i] != 0
}

/// `at` is the place of the first zero byte of `bytes`.
pub open spec fn is_first_nul(bytes: Seq<u8>, at: int) -> bool {
    &&& 0 <= at < bytes.len()
    &&& bytes[at] == 0
    &&& nul_free(bytes.take(at))
}

/// The place of the first zero byte of `bytes`, if it has one.
pub open spec fn nul_position(bytes: Seq<u8>) -> Option<int> {
    if nul_free(bytes) {
        None
    } else {
        Some(choose|at: int| is_first_nul(bytes, at))
    }
}

/// The bytes of `bytes` before its first zero byte: what a reader of
/// nul-terminated strings sees of it. All of `bytes` where none is zero.
pub open spec fn until_nul(bytes: Seq<u8>) -> Seq<u8> {
    match nul_position(bytes) {
        Some(at) => bytes.take(at),
        None => bytes,
    }
}

/// A sequence has at most one first zero byte.
pub proof fn first_nul_is_unique(bytes: Seq<u8>, a: int, b: int)
    requires
        is_first_nul(bytes, a),
        is_first_nul(bytes, b),
    ensures
        a == b,
{
    if a < b {
        assert(bytes.take(b)[a] == bytes[a]);
    } else if b < a {
        assert(bytes.take(a)[b] == bytes[b]);
    }
}

/// Where `at` is the first zero byte, `nul_position` names it.
pub proof fn first_nul_is_position(bytes: Seq<u8>, at: int)
    requires
        is_first_nul(bytes, at),
    ensures
        nul_position(bytes) == Some(at),
{
    let found = choose|p: int| is_first_nul(bytes, p);
    first_nul_is_unique(bytes, at, found);
}

/// A sequence that holds a zero byte has a first one.
pub proof fn first_nul_exists(bytes: Seq<u8>)
    requires
        !nul_free(bytes),
    ensures
        exists|at: int| is_first_nul(bytes, at),
    decreases bytes.len(),
{
    let front = bytes.drop_last();
    if nul_free(front) {
        let last = bytes.len() - 1;
        assert(bytes.take(last) =~= front);
        if bytes[last] != 0 {
            assert forall|i: int| 0 <= i < bytes.len() implies bytes[i] != 0 by {
                if i < last {
                    assert(front[i] == bytes[i]);
                }
            }
        }
        assert(is_first_nul(bytes, last));
    } else {
        first_nul_exists(front);
        let at = choose|p: int| is_first_nul(front, p);
        assert(bytes.take(at) =~= front.take(at));
        assert(is_first_nul(bytes, at));
    }
}

/// What is read of a sequence up to its first zero byte holds no zero byte.
pub proof fn until_nul_is_nul_free(bytes: Seq<u8>)
    ensures
        nul_free(until_nul(bytes)),
        until_nul(bytes).len() <= bytes.len(),
{
    if !nul_free(bytes) {
        first_nul_exists(bytes);
    }
}

/// Finds the first zero byte of `bytes`.
pub fn first_nul(bytes: &[u8]) -> (found: Option<usize>)
    ensures
        match found {
            Some(at) => is_first_nul(bytes@, at as int) && nul_position(bytes@) == Some(at as int),
            None => nul_free(bytes@) && nul_position(bytes@).is_none(),
        },
{
    let mut i: usize = 0;
    while i < bytes.len()
        invariant
            i <= bytes.len(),
            nul_free(bytes@.take(i as int)),
        decreases bytes.len() - i,
    {
        if bytes[i] == 0 {
            proof {
                first_nul_is_position(bytes@, i as int);
            }
            return Some(i);
        }
        proof {
            let next = bytes@.take(i + 1);
            assert forall|j: int| 0 <= j < next.len() implies next[j] != 0 by {
                if j < i {
                    assert(bytes@.take(i as int)[j] == next[j]);
                }
            }
        }
        i += 1;
    }
    proof {
        assert(bytes@.take(i as int) =~= bytes@);
    }
    None
}

/// `pattern` stands in `text` from place `at` on.
pub open spec fn occurs_at(text: Seq<char>, pattern: Seq<char>, at: int) -> bool {
    &&& 0 <= at
    &&& at + pattern.len() <= text.len()
    &&& text.subrange(at, at + pattern.len()) == pattern
}

/// `pattern` stands somewhere in `text`, as a run of neighbouring characters.
pub open spec fn contains_text(text: Seq<char>, pattern: Seq<char>) -> bool {
    exists|at: int| occurs_at(text, pattern, at)
}

/// Tells whether `pattern` stands in `text` from place `at` on.
fn matches_at(text: &Vec<char>, pattern: &Vec<char>, at: usize) -> (r: bool)
    requires
        at + pattern@.len() <= text@.len(),
    ensures
        r == occurs_at(text@, pattern@, at as int),
{
    let ghost window = text@.subrange(at as int, at + pattern@.len());
    let size: usize = text.len();
    let mut j: usize = 0;
    while j < pattern.len()
        invariant
            j <= pattern@.len(),
            size == text@.len(),
            at + pattern@.len() <= text@.len(),
            window == text@.subrange(at as int, at + pattern@.len()),
            forall|k: int| 0 <= k < j ==> window[k] == pattern@[k],
        decreases pattern@.len() - j,
    {
        if text[at + j] != pattern[j] {
            assert(window[j as int] != pattern@[j as int]);
            return false;
        }
        j += 1;
    }
    assert(window =~= pattern@);
    true
}

/// Tells whether `pattern` stands somewhere in `text`.
pub fn contains(text: &Vec<char>, pattern: &str) -> (r: bool)
    ensures
        r == contains_text(text@, pattern@),
{
    let wanted = chars_of(pattern);
    if wanted.len() > text.len() {
        return false;
    }
    let last: usize = text.len() - wanted.len();
    let mut at: usize = 0;
    loop
        invariant
            wanted@ == pattern@,
            last == text@.len() - pattern@.len(),
            at <= last,
            forall|k: int| 0 <= k < at ==> !occurs_at(text@, pattern@, k),
        ensures
            forall|k: int| 0 <= k <= last ==> !occurs_at(text@, pattern@, k),
        decreases last - at,
    {
        if matches_at(text, &wanted, at) {
            assert(occurs_at(text@, pattern@, at as int));
            return true;
        }
        if at == last {
            break;
        }
        at += 1;
    }
    false
}

} // verus!
