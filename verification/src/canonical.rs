//! The canonical form of a language tag.

use crate::bstr::BStr;
use crate::error::TagError;
use crate::iso639::{
    lemma_letter_code_bytes, lookup_639_1, lookup_639_3, part3_code, resolve, resolve_code,
};
use crate::text::{decode_tag, encode_tag, has_nul};
use isolang::Language;
use vstd::prelude::*;
use vstd::utf8::{
    decode_utf8, decode_utf8_encode_utf8, encode_utf8, encode_utf8_decode_utf8,
    encode_utf8_valid_utf8, valid_utf8,
};

verus! {

/// The text that stands for a tag: the ISO 639-3 code of its language, or the
/// tag itself where the table knows no language for it.
pub open spec fn canonical_text(tag: Seq<char>) -> Seq<char> {
    match resolve(tag) {
        Some(lang) => part3_code(lang),
        None => tag,
    }
}

/// The canonical form of the tag that `input` encodes.
///
/// Bytes that are not well-formed UTF-8 have none. Nor has a tag that the
/// table does not know and that holds a zero byte: it would have to be passed
/// through, and cannot. In every other case the form is the encoding of the
/// tag's canonical text.
pub open spec fn canonical_form(input: Seq<u8>) -> Result<Seq<u8>, TagError> {
    if !valid_utf8(input) {
        Err(TagError::InvalidEncoding)
    } else if resolve(decode_utf8(input)) is None && has_nul(input) {
        Err(TagError::EmbeddedNul)
    } else {
        Ok(encode_utf8(canonical_text(decode_utf8(input))))
    }
}

/// What is handed back for a canonical form: its bytes, or the null string
/// where there is none.
pub open spec fn or_null(form: Result<Seq<u8>, TagError>) -> Option<Seq<u8>> {
    match form {
        Ok(bytes) => Some(bytes),
        Err(_) => None,
    }
}

/// A two-letter code that the table lists becomes the three-letter code of its
/// language.
pub proof fn lemma_two_letter_code(code: Seq<char>, lang: Language)
    requires
        lookup_639_1(code) == Some(lang),
    ensures
        canonical_text(code) == part3_code(lang),
        canonical_form(encode_utf8(code)) == Ok::<Seq<u8>, TagError>(
            encode_utf8(part3_code(lang)),
        ),
{
    encode_utf8_valid_utf8(code);
    encode_utf8_decode_utf8(code);
}

/// A three-letter code under which the table lists the very language whose
/// code it is stays as it is.
pub proof fn lemma_three_letter_code(code: Seq<char>, lang: Language)
    requires
        lookup_639_3(code) == Some(lang),
        part3_code(lang) == code,
    ensures
        canonical_text(code) == code,
        canonical_form(encode_utf8(code)) == Ok::<Seq<u8>, TagError>(encode_utf8(code)),
{
    encode_utf8_valid_utf8(code);
    encode_utf8_decode_utf8(code);
    assert(lookup_639_1(code) is None);
}

/// A tag that neither lookup knows is passed through unchanged, unless it
/// holds a zero byte.
pub proof fn lemma_unknown_tag(tag: Seq<char>)
    requires
        lookup_639_1(tag) is None,
        lookup_639_3(tag) is None,
        !has_nul(encode_utf8(tag)),
    ensures
        canonical_text(tag) == tag,
        canonical_form(encode_utf8(tag)) == Ok::<Seq<u8>, TagError>(encode_utf8(tag)),
{
    encode_utf8_valid_utf8(tag);
    encode_utf8_decode_utf8(tag);
}

/// Bytes that are not well-formed UTF-8 have no canonical form, and the null
/// string is handed back for them.
pub proof fn lemma_invalid_encoding(input: Seq<u8>)
    requires
        !valid_utf8(input),
    ensures
        canonical_form(input) == Err::<Seq<u8>, TagError>(TagError::InvalidEncoding),
        or_null(canonical_form(input)) is None,
{
}

/// Where the table lists the language of a tag under that language's own
/// code, the canonical form of the tag is its own canonical form.
pub proof fn lemma_canonical_form_stable(input: Seq<u8>, lang: Language)
    requires
        valid_utf8(input),
        resolve(decode_utf8(input)) == Some(lang),
        lookup_639_3(part3_code(lang)) == Some(lang),
    ensures
        canonical_form(input) matches Ok(once) && canonical_form(once) == canonical_form(input),
{
    lemma_three_letter_code(part3_code(lang), lang);
}

/// The text to hand back for `tag`, given the code that the table has for it:
/// that code, or the tag itself where there is none.
pub fn pick_text<'a>(tag: &'a str, code: Option<&'a str>) -> (text: &'a str)
    ensures
        text@ == match code {
            Some(c) => c@,
            None => tag@,
        },
{
    match code {
        Some(c) => c,
        None => tag,
    }
}

/// Brings the tag that `input` encodes into its canonical form.
///
/// The result is exactly [`canonical_form`] of the input: an error for bytes
/// that are not well-formed UTF-8 and for an unknown tag with a zero byte, and
/// otherwise the encoding of the tag's canonical text. Whatever is handed back
/// holds no zero byte and is its own canonical form, so that a second pass
/// changes nothing.
pub fn canonicalize(input: &[u8]) -> (r: Result<Vec<u8>, TagError>)
    ensures
        match r {
            Ok(out) => canonical_form(input@) == Ok::<Seq<u8>, TagError>(out@),
            Err(e) => canonical_form(input@) == Err::<Seq<u8>, TagError>(e),
        },
        r matches Ok(out) ==> !has_nul(out@) && canonical_form(out@) == Ok::<Seq<u8>, TagError>(
            out@,
        ),
{
    let tag = match decode_tag(input) {
        Ok(tag) => tag,
        Err(e) => {
            return Err(e);
        },
    };
    let code = resolve_code(tag);
    let text = pick_text(tag, code);
    proof {
        match resolve(tag@) {
            Some(lang) => {
                lemma_letter_code_bytes(text@);
                lemma_three_letter_code(text@, lang);
            },
            None => {
                decode_utf8_encode_utf8(input@);
            },
        }
    }
    encode_tag(text)
}

/// Brings a language tag into its canonical form, as a byte string.
///
/// The bytes of `lang` are taken as the tag; the null string holds none. The
/// result is the canonical form of the tag, or the null string where the tag
/// has none: where its bytes are not well-formed UTF-8, or where the table
/// does not know it and it holds a zero byte. A result that is not null holds
/// no zero byte and is its own canonical form.
pub fn mp_lang_canonicalize(lang: &BStr) -> (out: BStr)
    ensures
        out@ == or_null(canonical_form(lang.bytes())),
        !valid_utf8(lang.bytes()) ==> out@ is None,
        out@ matches Some(bytes) ==> !has_nul(bytes) && or_null(canonical_form(bytes)) == out@,
{
    let result = match lang.as_bytes() {
        Some(input) => canonicalize(input),
        None => {
            let empty: Vec<u8> = Vec::new();
            canonicalize(empty.as_slice())
        },
    };
    match result {
        Ok(bytes) => BStr::new(bytes),
        Err(_) => BStr::null(),
    }
}

} // verus!
