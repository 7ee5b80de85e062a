//! Paths as the runtime takes them: byte strings that a NUL byte ends.

use vstd::prelude::*;
use vstd::string::*;
use vstd::utf8::*;
use crate::error::Error;

verus! {

/// Whether a NUL byte occurs anywhere among `bytes`.
pub open spec fn has_nul(bytes: Seq<u8>) -> bool {
    exists|i: int| 0 <= i < bytes.len() && bytes[i] == 0u8
}

/// Whether the NUL character occurs anywhere in `path`.
pub open spec fn has_nul_char(path: Seq<char>) -> bool {
    exists|i: int| 0 <= i < path.len() && path[i] == '\0'
}

/// A NUL byte occurs in two byte strings put together exactly where it occurs
/// in one of them.
pub proof fn lemma_has_nul_concat(head: Seq<u8>, tail: Seq<u8>)
    ensures
        has_nul(head + tail) <==> has_nul(head) || has_nul(tail),
{
    let both = head + tail;
    if has_nul(head) {
        let i = choose|i: int| 0 <= i < head.len() && head[i] == 0u8;
        assert(both[i] == 0u8);
    }
    if has_nul(tail) {
        let i = choose|i: int| 0 <= i < tail.len() && tail[i] == 0u8;
        assert(both[head.len() + i] == 0u8);
    }
    if has_nul(both) {
        let i = choose|i: int| 0 <= i < both.len() && both[i] == 0u8;
        if i < head.len() {
            assert(head[i] == 0u8);
        } else {
            assert(tail[i - head.len()] == 0u8);
        }
    }
}

/// The encoding of one character holds a NUL byte exactly where the character
/// is the NUL character: every byte of a longer encoding has its top bit set.
pub proof fn lemma_scalar_nul(scalar: u32)
    requires
        is_scalar(scalar),
    ensures
        has_nul(encode_scalar(scalar)) <==> scalar == 0,
{
    let bytes = encode_scalar(scalar);
    assert(scalar <= 0x7F ==> (((scalar & 0x7F) as u8 == 0u8) <==> scalar == 0)) by (bit_vector);
    assert(forall|b: u8| 0x80u8 | b != 0u8) by (bit_vector);
    assert(forall|b: u8| 0xC0u8 | b != 0u8) by (bit_vector);
    assert(forall|b: u8| 0xE0u8 | b != 0u8) by (bit_vector);
    assert(forall|b: u8| 0xF0u8 | b != 0u8) by (bit_vector);
    if has_width_1_encoding(scalar) {
        if scalar == 0 {
            assert(bytes[0] == 0u8);
        }
    } else {
        assert(forall|i: int| 0 <= i < bytes.len() ==> bytes[i] != 0u8);
    }
}

/// The encoding of a path holds a NUL byte exactly where the path holds the
/// NUL character.
pub proof fn lemma_nul_byte_iff_nul_char(path: Seq<char>)
    ensures
        has_nul(encode_utf8(path)) <==> has_nul_char(path),
    decreases path.len(),
{
    if path.len() == 0 {
        assert(encode_utf8(path) =~= Seq::<u8>::empty());
    } else {
        let first = path[0];
        let rest = path.drop_first();
        let scalar: u32 = #[verifier::truncate] (first as u32);
        char_is_scalar(first);
        lemma_scalar_nul(scalar);
        lemma_nul_byte_iff_nul_char(rest);
        lemma_has_nul_concat(encode_scalar(scalar), encode_utf8(rest));
        if has_nul_char(rest) {
            let i = choose|i: int| 0 <= i < rest.len() && rest[i] == '\0';
            assert(path[i + 1] == '\0');
        }
        if scalar == 0 {
            char_u32_cast(first, 0u32);
            char_u32_cast('\0', 0u32);
        }
        if has_nul_char(path) {
            let i = choose|i: int| 0 <= i < path.len() && path[i] == '\0';
            if i > 0 {
                assert(rest[i - 1] == '\0');
            }
        }
    }
}

/// Whether a NUL byte occurs anywhere among `bytes`.
pub fn contains_nul(bytes: &[u8]) -> (found: bool)
    ensures
        found == has_nul(bytes@),
{
    let mut i: usize = 0;
    while i < bytes.len()
        invariant
            i <= bytes.len(),
            forall|j: int| 0 <= j < i ==> bytes@[j] != 0u8,
        decreases bytes.len() - i,
    {
        if bytes[i] == 0u8 {
            return true;
        }
        i += 1;
    }
    false
}

/// Accepts a path that the runtime can take, and refuses one whose encoding
/// holds a NUL byte: the runtime would read it as ending there.
pub fn check_path(path: &str) -> (checked: Result<(), Error>)
    ensures
        checked is Ok <==> !has_nul(path.spec_bytes()),
        checked is Ok <==> !has_nul_char(path@),
        checked is Err ==> checked == Err::<(), Error>(Error::PathEncodingError),
{
    proof {
        lemma_nul_byte_iff_nul_char(path@);
    }
    if contains_nul(path.as_bytes()) {
        Err(Error::PathEncodingError)
    } else {
        Ok(())
    }
}

} // verus!
