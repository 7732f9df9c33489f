//! Text at the backend's boundary.
//!
//! The backend takes and gives text as C strings: the bytes of the text, then
//! one zero byte, and no zero byte before that one. This module turns a
//! string into such bytes and the bytes that came back into a string.

use vstd::prelude::*;
use vstd::utf8::{decode_utf8, encode_utf8, valid_utf8};

verus! {

/// No byte of `bytes` is zero.
pub open spec fn nul_free(bytes: Seq<u8>) -> bool {
    forall|i: int| 0 <= i < bytes.len() ==> bytes[i] != 0u8
}

/// A string's text can be handed to the backend: its encoding holds no zero
/// byte.
pub open spec fn is_c_text(text: Seq<char>) -> bool {
    nul_free(encode_utf8(text))
}

/// The C string of a text: its UTF-8 encoding and the closing zero byte.
pub open spec fn c_string(text: Seq<char>) -> Seq<u8> {
    encode_utf8(text).push(0u8)
}

/// The C string of the empty name.
pub open spec fn no_name() -> Seq<u8> {
    c_string(Seq::<char>::empty())
}

/// `core::str::from_utf8`: `Some` exactly when the bytes form valid UTF-8,
/// and then a string slice over those very bytes.
#[verifier::external_body]
fn str_from_utf8(bytes: &[u8]) -> (text: Option<&str>)
    ensures
        text is Some <==> valid_utf8(bytes@),
        text matches Some(s) ==> encode_utf8(s@) == bytes@,
{
    core::str::from_utf8(bytes).ok()
}

/// Whether a zero byte occurs among the bytes.
pub fn contains_nul(bytes: &[u8]) -> (found: bool)
    ensures
        found == !nul_free(bytes@),
{
    let mut i: usize = 0;
    while i < bytes.len()
        invariant
            i <= bytes.len(),
            forall|j: int| 0 <= j < i ==> bytes@[j] != 0u8,
        decreases bytes.len() - i,
    {
        if bytes[i] == 0 {
            return true;
        }
        i += 1;
    }
    false
}

/// Whether a zero byte occurs in the text's encoding, which is what keeps it
/// from being a C string.
pub fn has_interior_nul(string: &str) -> (found: bool)
    ensures
        found == !is_c_text(string@),
{
    contains_nul(string.as_bytes())
}

/// The empty name, as a C string: the closing zero byte alone.
pub fn empty_twine() -> (bytes: Vec<u8>)
    ensures
        bytes@ == no_name(),
{
    let mut bytes: Vec<u8> = Vec::new();
    bytes.push(0);
    proof {
        assert(encode_utf8(Seq::<char>::empty()) =~= Seq::<u8>::empty());
        assert(bytes@ =~= c_string(Seq::<char>::empty()));
    }
    bytes
}

/// The C string of `string`.
pub fn string_to_cstring(string: &str) -> (bytes: Vec<u8>)
    requires
        is_c_text(string@),
    ensures
        bytes@ == c_string(string@),
{
    let text = string.as_bytes();
    let mut bytes: Vec<u8> = Vec::new();
    let mut i: usize = 0;
    while i < text.len()
        invariant
            i <= text.len(),
            bytes@ == text@.subrange(0, i as int),
        decreases text.len() - i,
    {
        bytes.push(text[i]);
        proof {
            assert(bytes@ =~= text@.subrange(0, i + 1));
        }
        i += 1;
    }
    proof {
        assert(text@.subrange(0, i as int) =~= text@);
    }
    bytes.push(0);
    bytes
}

/// Whether bytes that came from the backend, without the closing zero byte,
/// are text.
pub fn is_text(bytes: &[u8]) -> (valid: bool)
    ensures
        valid == valid_utf8(bytes@),
{
    str_from_utf8(bytes).is_some()
}

/// The string that the backend's bytes spell, the closing zero byte left off.
pub fn cstring_to_string(bytes: &[u8]) -> (string: String)
    requires
        valid_utf8(bytes@),
    ensures
        string@ == decode_utf8(bytes@),
        encode_utf8(string@) == bytes@,
{
    match str_from_utf8(bytes) {
        Some(text) => {
            proof {
                vstd::utf8::encode_utf8_decode_utf8(text@);
            }
            text.to_owned()
        },
        None => String::new(),
    }
}

/// A text that went to the backend as a C string and came back byte for byte
/// reads as the same text.
pub proof fn lemma_c_string_round_trip(text: Seq<char>)
    ensures
        c_string(text).last() == 0u8,
        c_string(text).drop_last() == encode_utf8(text),
        valid_utf8(c_string(text).drop_last()),
        decode_utf8(c_string(text).drop_last()) == text,
{
    assert(c_string(text).drop_last() =~= encode_utf8(text));
    vstd::utf8::encode_utf8_valid_utf8(text);
    vstd::utf8::encode_utf8_decode_utf8(text);
}

} // verus!
