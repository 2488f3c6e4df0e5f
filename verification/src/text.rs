//! Comparisons of text by its bytes.

use vstd::prelude::*;
use vstd::utf8::encode_utf8;
use vstd::utf8::encode_utf8_decode_utf8;

verus! {

/// An ASCII upper-case letter as its lower-case one, any other byte as itself.
pub open spec fn ascii_lower(b: u8) -> u8 {
    if 65 <= b <= 90 {
        (b + 32) as u8
    } else {
        b
    }
}

/// The two sequences are equal up to the case of ASCII letters.
pub open spec fn eq_ignoring_ascii_case(a: Seq<u8>, b: Seq<u8>) -> bool {
    a.len() == b.len() && forall|i: int| 0 <= i < a.len() ==> ascii_lower(#[trigger] a[i]) == ascii_lower(b[i])
}

/// `a` ends with `b`.
pub open spec fn ends_with(a: Seq<u8>, b: Seq<u8>) -> bool {
    a.len() >= b.len() && a.skip(a.len() - b.len()) == b
}

/// Two texts with the same UTF-8 bytes are the same text.
pub proof fn lemma_same_bytes_same_text(a: Seq<char>, b: Seq<char>)
    requires
        encode_utf8(a) == encode_utf8(b),
    ensures
        a == b,
{
    encode_utf8_decode_utf8(a);
    encode_utf8_decode_utf8(b);
}

/// Whether two byte strings are equal.
pub fn bytes_eq(a: &[u8], b: &[u8]) -> (r: bool)
    ensures
        r == (a@ == b@),
{
    if a.len() != b.len() {
        return false;
    }
    let mut i: usize = 0;
    while i < a.len()
        invariant
            a@.len() == b@.len(),
            i <= a@.len(),
            forall|j: int| 0 <= j < i ==> a@[j] == b@[j],
        decreases a@.len() - i,
    {
        if a[i] != b[i] {
            return false;
        }
        i = i + 1;
    }
    proof {
        assert(a@ =~= b@);
    }
    true
}

/// Whether two texts are equal.
pub fn str_eq(a: &str, b: &str) -> (r: bool)
    ensures
        r == (a@ == b@),
{
    let r = bytes_eq(a.as_bytes(), b.as_bytes());
    proof {
        if r {
            lemma_same_bytes_same_text(a@, b@);
        }
    }
    r
}

/// Whether two byte strings are equal up to the case of ASCII letters.
pub fn bytes_eq_ignore_ascii_case(a: &[u8], b: &[u8]) -> (r: bool)
    ensures
        r == eq_ignoring_ascii_case(a@, b@),
{
    if a.len() != b.len() {
        return false;
    }
    let mut i: usize = 0;
    while i < a.len()
        invariant
            a@.len() == b@.len(),
            i <= a@.len(),
            forall|j: int| 0 <= j < i ==> ascii_lower(#[trigger] a@[j]) == ascii_lower(b@[j]),
        decreases a@.len() - i,
    {
        let x: u8 = if 65 <= a[i] && a[i] <= 90 { a[i] + 32 } else { a[i] };
        let y: u8 = if 65 <= b[i] && b[i] <= 90 { b[i] + 32 } else { b[i] };
        if x != y {
            assert(ascii_lower(a@[i as int]) != ascii_lower(b@[i as int]));
            return false;
        }
        i = i + 1;
    }
    true
}

/// Whether `a` ends with `b`.
pub fn bytes_end_with(a: &[u8], b: &[u8]) -> (r: bool)
    ensures
        r == ends_with(a@, b@),
{
    if a.len() < b.len() {
        return false;
    }
    let tail = vstd::slice::slice_subrange(a, a.len() - b.len(), a.len());
    proof {
        assert(tail@ =~= a@.skip(a@.len() - b@.len()));
    }
    bytes_eq(tail, b)
}

} // verus!
