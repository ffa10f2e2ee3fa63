//! The table of ISO 639 languages, and the lookup of a tag in it.
//!
//! The table is that of the `isolang` crate. Nothing of it is proved here:
//! what the lookups return is named, and the few things that the rest of the
//! library relies on are written down in the contracts below.

use crate::text::has_nul;
use isolang::Language;
use vstd::prelude::*;
use vstd::string::StringSliceAdditionalSpecFns;
use vstd::utf8::{encode_utf8, is_ascii_chars, is_ascii_chars_encode_utf8};

verus! {

/// `isolang::Language`, one language of the table. A value of it is only
/// carried from a lookup to the reading of its code; nothing is known of what
/// it holds.
#[verifier::external_type_specification]
#[verifier::external_body]
pub struct ExLanguage(isolang::Language);

/// The language that the table lists under the two-letter ISO 639-1 code
/// `code`, if any.
pub uninterp spec fn part1_entry(code: Seq<char>) -> Option<Language>;

/// The language that the table lists under the three-letter ISO 639-3 code
/// `code`, if any.
pub uninterp spec fn part3_entry(code: Seq<char>) -> Option<Language>;

/// The ISO 639-3 code of `lang`.
pub uninterp spec fn part3_code(lang: Language) -> Seq<char>;

/// The language found for `code` taken as an ISO 639-1 code: only a text of
/// two bytes is looked up at all.
pub open spec fn lookup_639_1(code: Seq<char>) -> Option<Language> {
    if encode_utf8(code).len() == 2 {
        part1_entry(code)
    } else {
        None
    }
}

/// The language found for `code` taken as an ISO 639-3 code: only a text of
/// three bytes is looked up at all.
pub open spec fn lookup_639_3(code: Seq<char>) -> Option<Language> {
    if encode_utf8(code).len() == 3 {
        part3_entry(code)
    } else {
        None
    }
}

/// Three lower-case letters of the Latin alphabet.
pub open spec fn is_letter_code(code: Seq<char>) -> bool {
    &&& code.len() == 3
    &&& forall|i: int| 0 <= i < code.len() ==> 'a' <= #[trigger] code[i] <= 'z'
}

/// `code` is the ISO 639-3 code of `lang`: three lower-case letters, under
/// which the table lists `lang` itself.
pub open spec fn is_code_of(code: Seq<char>, lang: Language) -> bool {
    &&& code == part3_code(lang)
    &&& is_letter_code(code)
    &&& lookup_639_3(code) == Some(lang)
}

/// `Language::from_639_1` gives `None` for a text that is not two bytes long
/// and otherwise looks the text up in its table of two-letter codes. The
/// contract claims the first and names the second.
pub assume_specification[ Language::from_639_1 ](code: &str) -> (found: Option<Language>)
    ensures
        code.spec_bytes().len() != 2 ==> found is None,
        code.spec_bytes().len() == 2 ==> found == part1_entry(code@),
;

/// `Language::from_639_3` gives `None` for a text that is not three bytes long
/// and otherwise looks the text up in its table of three-letter codes. The
/// contract claims the first and names the second.
pub assume_specification[ Language::from_639_3 ](code: &str) -> (found: Option<Language>)
    ensures
        code.spec_bytes().len() != 3 ==> found is None,
        code.spec_bytes().len() == 3 ==> found == part3_entry(code@),
;

/// `Language::to_639_3` reads the language's three-letter code from the table.
/// The contract names that code and claims of it what the table and the way it
/// is generated show: it is made of three lower-case letters, and
/// `Language::from_639_3` finds this very language under it.
pub assume_specification[ Language::to_639_3 ](lang: &Language) -> (code: &'static str)
    ensures
        code@ == part3_code(*lang),
        is_letter_code(code@),
        lookup_639_3(code@) == Some(*lang),
;

/// The language of a tag: the one listed under it as a two-letter code or,
/// where there is none, the one listed under it as a three-letter code.
pub open spec fn resolve(tag: Seq<char>) -> Option<Language> {
    match lookup_639_1(tag) {
        Some(lang) => Some(lang),
        None => lookup_639_3(tag),
    }
}

/// A three-letter code takes three bytes, none of them zero.
pub proof fn lemma_letter_code_bytes(code: Seq<char>)
    requires
        is_letter_code(code),
    ensures
        encode_utf8(code).len() == 3,
        !has_nul(encode_utf8(code)),
{
    assert(is_ascii_chars(code));
    is_ascii_chars_encode_utf8(code);
    assert forall|i: int| 0 <= i < encode_utf8(code).len() implies encode_utf8(code)[i] != 0 by {
        assert(code[i] as u8 == encode_utf8(code)[i]);
    }
}

/// Looks a tag up, first as a two-letter ISO 639-1 code and then as a
/// three-letter ISO 639-3 code, and gives the ISO 639-3 code of the language
/// that the first successful lookup finds.
pub fn resolve_code(tag: &str) -> (code: Option<&'static str>)
    ensures
        match resolve(tag@) {
            Some(lang) => code matches Some(c) && is_code_of(c@, lang),
            None => code is None,
        },
{
    let found = match Language::from_639_1(tag) {
        Some(lang) => Some(lang),
        None => Language::from_639_3(tag),
    };
    match found {
        Some(lang) => Some(lang.to_639_3()),
        None => None,
    }
}

} // verus!
