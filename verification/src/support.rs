//! Small facts about std that vstd leaves unspecified.

use vstd::prelude::*;
use vstd::string::StringSliceAdditionalSpecFns;

verus! {

/// `String::push`: the documentation says it appends the given `char` to
/// the end of the string. That is all this contract claims.
#[verifier::external_body]
pub(crate) fn string_push(s: &mut String, c: char)
    ensures
        final(s)@ == old(s)@.push(c),
{
    s.push(c);
}

/// `core::str::from_utf8`: the documentation says it succeeds exactly when
/// the bytes are valid UTF-8, and then gives the string slice made of those
/// bytes. That is all this contract claims.
#[verifier::external_body]
pub(crate) fn str_from_utf8(v: &[u8]) -> (r: Option<&str>)
    ensures
        r is Some <==> vstd::utf8::valid_utf8(v@),
        r matches Some(s) ==> s.spec_bytes() == v@,
{
    core::str::from_utf8(v).ok()
}

} // verus!

verus! {

/// The first `n` bytes of `s` as a vector.
pub fn slice_prefix_to_vec(s: &[u8], n: usize) -> (v: Vec<u8>)
    requires
        n <= s@.len(),
    ensures
        v@ == s@.subrange(0, n as int),
{
    let mut v: Vec<u8> = Vec::new();
    let mut i: usize = 0;
    while i < n
        invariant
            i <= n,
            n <= s@.len(),
            v@ == s@.subrange(0, i as int),
        decreases n - i,
    {
        v.push(s[i]);
        assert(s@.subrange(0, i + 1) =~= s@.subrange(0, i as int).push(s@[i as int]));
        i = i + 1;
    }
    v
}

/// Whether two byte strings are equal.
pub fn bytes_equal(a: &[u8], b: &[u8]) -> (r: bool)
    ensures
        r == (a@ == b@),
{
    if a.len() != b.len() {
        return false;
    }
    let mut i: usize = 0;
    while i < a.len()
        invariant
            i <= a@.len(),
            a@.len() == b@.len(),
            forall|k: int| 0 <= k < i ==> a@[k] == b@[k],
        decreases a@.len() - i,
    {
        if a[i] != b[i] {
            return false;
        }
        i = i + 1;
    }
    assert(a@ =~= b@);
    true
}

} // verus!
