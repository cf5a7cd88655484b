//! Comparison of texts.

use vstd::prelude::*;
use vstd::string::StringSliceAdditionalSpecFns;
use vstd::utf8::{decode_utf8, encode_utf8, encode_utf8_decode_utf8};

verus! {

/// Whether `prefix` stands at the start of `bytes`.
pub open spec fn is_prefix_of(prefix: Seq<u8>, bytes: Seq<u8>) -> bool {
    prefix.len() <= bytes.len() && bytes.subrange(0, prefix.len() as int) == prefix
}

/// Whether `bytes` begins with `prefix`.
pub fn begins_with(bytes: &[u8], prefix: &[u8]) -> (found: bool)
    ensures
        found == is_prefix_of(prefix@, bytes@),
{
    if prefix.len() > bytes.len() {
        return false;
    }
    let mut i: usize = 0;
    while i < prefix.len()
        invariant
            i <= prefix.len() <= bytes.len(),
            forall|j: int| 0 <= j < i ==> bytes[j] == prefix[j],
        decreases prefix.len() - i,
    {
        if bytes[i] != prefix[i] {
            assert(bytes@.subrange(0, prefix@.len() as int)[i as int] == bytes[i as int]);
            return false;
        }
        i += 1;
    }
    assert(bytes@.subrange(0, prefix@.len() as int) =~= prefix@);
    true
}

/// Two texts with the same UTF-8 encoding are the same text.
pub proof fn lemma_encoding_is_injective(first: Seq<char>, second: Seq<char>)
    requires
        encode_utf8(first) == encode_utf8(second),
    ensures
        first == second,
{
    encode_utf8_decode_utf8(first);
    encode_utf8_decode_utf8(second);
    assert(decode_utf8(encode_utf8(first)) == first);
    assert(decode_utf8(encode_utf8(second)) == second);
}

/// Whether two texts are the same, character for character.
pub fn same_text(first: &str, second: &str) -> (same: bool)
    ensures
        same == (first@ == second@),
{
    let left = first.as_bytes();
    let right = second.as_bytes();
    if left.len() != right.len() {
        return false;
    }
    let found = begins_with(left, right);
    proof {
        assert(left@.subrange(0, right@.len() as int) =~= left@);
        if found {
            assert(left@ == right@);
            lemma_encoding_is_injective(first@, second@);
        }
    }
    found
}

} // verus!
