//! Strings that come from the engine.

use crate::bindings::LiteRtStatus_kLiteRtStatusErrorRuntimeFailure;
use crate::error::{Error, ErrorCause};
use vstd::prelude::*;
use vstd::slice::slice_index_get;
use vstd::string::StringSliceAdditionalSpecFns;
use vstd::utf8::{decode_utf8, encode_utf8, encode_utf8_decode_utf8, valid_utf8};

verus! {

/// No byte is the NUL that ends a C string.
pub open spec fn has_no_nul(bytes: Seq<u8>) -> bool {
    forall|i: int| 0 <= i < bytes.len() ==> bytes[i] != 0
}

/// The bytes of a C string that holds `text`: the text, then one NUL.
pub open spec fn c_string(text: Seq<u8>) -> Seq<u8> {
    text.push(0u8)
}

/// The bytes are those of a C string: some text without NUL, then one NUL.
pub open spec fn is_c_string(bytes: Seq<u8>) -> bool {
    &&& bytes.len() > 0
    &&& bytes.last() == 0u8
    &&& has_no_nul(bytes.drop_last())
}

/// The error for a string that the engine did not give, or gave in bytes
/// that are no UTF-8.
pub open spec fn invalid_string_encoding() -> Error {
    Error {
        cause: ErrorCause::InvalidStringEncoding,
        litert_status: LiteRtStatus_kLiteRtStatusErrorRuntimeFailure,
    }
}

/// The text of a C string of the engine. `None` stands for the null
/// pointer, and the bytes are those before the NUL that ends the string.
pub open spec fn c_str_text(c_str: Option<Seq<u8>>) -> Result<Seq<char>, Error> {
    match c_str {
        Some(bytes) if valid_utf8(bytes) => Ok(decode_utf8(bytes)),
        _ => Err(invalid_string_encoding()),
    }
}

/// `core::str::from_utf8`, with its error dropped. The call succeeds exactly
/// on the byte strings that are valid UTF-8, and the string slice that it
/// returns has the bytes that it was given.
#[verifier::external_body]
fn str_from_utf8(bytes: &[u8]) -> (text: Option<&str>)
    ensures
        text is Some <==> valid_utf8(bytes@),
        text is Some ==> text->0.spec_bytes() == bytes@,
{
    match core::str::from_utf8(bytes) {
        Ok(text) => Some(text),
        Err(_) => None,
    }
}

/// Reads a C string of the engine as a string slice.
pub fn c_str_to_str(c_str: &Option<Vec<u8>>) -> (r: Result<&str, Error>)
    ensures
        match r {
            Ok(text) => c_str_text(option_bytes(*c_str)) == Ok::<Seq<char>, Error>(text@),
            Err(e) => c_str_text(option_bytes(*c_str)) == Err::<Seq<char>, Error>(e),
        },
{
    let bytes = match c_str {
        Some(bytes) => bytes,
        None => {
            return Err(
                Error::new(
                    ErrorCause::InvalidStringEncoding,
                    LiteRtStatus_kLiteRtStatusErrorRuntimeFailure,
                ),
            );
        },
    };
    match str_from_utf8(bytes.as_slice()) {
        Some(text) => {
            proof {
                encode_utf8_decode_utf8(text@);
            }
            Ok(text)
        },
        None => Err(
            Error::new(
                ErrorCause::InvalidStringEncoding,
                LiteRtStatus_kLiteRtStatusErrorRuntimeFailure,
            ),
        ),
    }
}

/// The bytes that a pointer leads to, if it is not null.
pub open spec fn option_bytes(c_str: Option<Vec<u8>>) -> Option<Seq<u8>> {
    match c_str {
        Some(bytes) => Some(bytes@),
        None => None,
    }
}

/// Whether a text holds the NUL character, so that no C string can hold it.
pub fn holds_nul(text: &str) -> (found: bool)
    ensures
        found == !has_no_nul(text.spec_bytes()),
{
    let bytes = text.as_bytes();
    let mut i: usize = 0;
    while i < bytes.len()
        invariant
            0 <= i <= bytes@.len(),
            bytes@ == text.spec_bytes(),
            forall|k: int| 0 <= k < i ==> bytes@[k] != 0,
        decreases bytes@.len() - i,
    {
        if *slice_index_get(bytes, i) == 0 {
            return true;
        }
        i = i + 1;
    }
    false
}

/// Whether two string slices hold the same text.
pub fn str_eq(a: &str, b: &str) -> (same: bool)
    ensures
        same == (a@ == b@),
{
    let a_bytes = a.as_bytes();
    let b_bytes = b.as_bytes();
    proof {
        encode_utf8_decode_utf8(a@);
        encode_utf8_decode_utf8(b@);
    }
    if a_bytes.len() != b_bytes.len() {
        return false;
    }
    let mut i: usize = 0;
    while i < a_bytes.len()
        invariant
            0 <= i <= a_bytes@.len(),
            a_bytes@.len() == b_bytes@.len(),
            a_bytes@ == encode_utf8(a@),
            b_bytes@ == encode_utf8(b@),
            forall|k: int| 0 <= k < i ==> a_bytes@[k] == b_bytes@[k],
        decreases a_bytes@.len() - i,
    {
        if *slice_index_get(a_bytes, i) != *slice_index_get(b_bytes, i) {
            return false;
        }
        i = i + 1;
    }
    assert(a_bytes@ =~= b_bytes@);
    true
}

} // verus!
