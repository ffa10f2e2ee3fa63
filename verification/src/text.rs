//! Tags as bytes and as text: decoding, and encoding without a zero byte.

use crate::error::TagError;
use vstd::prelude::*;
use vstd::slice::slice_to_vec;
use vstd::string::StringSliceAdditionalSpecFns;
use vstd::utf8::{decode_utf8, encode_utf8, valid_utf8};

verus! {

/// `core::str::Utf8Error`, the error of `core::str::from_utf8`. Nothing is
/// read from it: that there is one is all that counts.
#[verifier::external_type_specification]
#[verifier::external_body]
pub struct ExUtf8Error(core::str::Utf8Error);

/// `core::str::from_utf8` checks that the bytes are well-formed UTF-8 and, when
/// they are, hands the very same bytes back as a string slice. The contract
/// claims both: success exactly on well-formed input, and a string whose bytes
/// are the input.
pub assume_specification[ core::str::from_utf8 ](v: &[u8]) -> (r: Result<
    &str,
    core::str::Utf8Error,
>)
    ensures
        r is Ok <==> valid_utf8(v@),
        r matches Ok(s) ==> s.spec_bytes() == v@,
;

/// Whether `bytes` holds a zero byte, the mark that ends a C string.
pub open spec fn has_nul(bytes: Seq<u8>) -> bool {
    exists|i: int| 0 <= i < bytes.len() && bytes[i] == 0
}

/// Tells whether `bytes` holds a zero byte.
pub fn contains_nul(bytes: &[u8]) -> (found: bool)
    ensures
        found == has_nul(bytes@),
{
    let mut i: usize = 0;
    while i < bytes.len()
        invariant
            i <= bytes.len(),
            forall|j: int| 0 <= j < i ==> bytes@[j] != 0,
        decreases bytes.len() - i,
    {
        if bytes[i] == 0 {
            return true;
        }
        i += 1;
    }
    false
}

/// Decodes the bytes of a tag as UTF-8 text.
///
/// Well-formed bytes give the text they encode; any other input is refused
/// with [`TagError::InvalidEncoding`].
pub fn decode_tag(input: &[u8]) -> (r: Result<&str, TagError>)
    ensures
        match r {
            Ok(tag) => valid_utf8(input@) && tag@ == decode_utf8(input@) && tag.spec_bytes()
                == input@,
            Err(e) => !valid_utf8(input@) && e == TagError::InvalidEncoding,
        },
{
    match core::str::from_utf8(input) {
        Ok(tag) => {
            proof {
                vstd::utf8::encode_utf8_decode_utf8(tag@);
            }
            Ok(tag)
        },
        Err(_) => Err(TagError::InvalidEncoding),
    }
}

/// Encodes `text` as bytes that can stand before a closing zero byte.
///
/// The bytes are those of the text in UTF-8. A text that itself holds a zero
/// byte has no such encoding and is refused with [`TagError::EmbeddedNul`].
pub fn encode_tag(text: &str) -> (r: Result<Vec<u8>, TagError>)
    ensures
        match r {
            Ok(bytes) => bytes@ == encode_utf8(text@) && !has_nul(bytes@),
            Err(e) => has_nul(encode_utf8(text@)) && e == TagError::EmbeddedNul,
        },
{
    let bytes = text.as_bytes();
    if contains_nul(bytes) {
        Err(TagError::EmbeddedNul)
    } else {
        Ok(slice_to_vec(bytes))
    }
}

} // verus!
