//! Canonical ISO 639-3 form of language tags.
//!
//! A tag arrives as bytes. It is decoded as UTF-8, looked up as a two-letter
//! ISO 639-1 code and then as a three-letter ISO 639-3 code, and replaced by the
//! three-letter code of the language found. A tag that neither lookup knows is
//! passed through unchanged. The result is handed back as bytes that hold no
//! zero byte, so that it can be given to an API that ends its strings with one.
//!
//! The table of languages is the one of the `isolang` crate.

pub mod bstr;
pub mod canonical;
pub mod error;
pub mod iso639;
pub mod text;

pub use bstr::BStr;
pub use canonical::{canonicalize, mp_lang_canonicalize, pick_text};
pub use error::TagError;
pub use iso639::resolve_code;
pub use text::{contains_nul, decode_tag, encode_tag};
