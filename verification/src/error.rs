//! Why a tag has no canonical form.

use vstd::prelude::*;

verus! {

/// The reason for which no canonical form can be produced for a tag.
#[derive(Debug, Clone, Copy, PartialEq, Eq, Structural)]
pub enum TagError {
    /// The bytes of the tag are not well-formed UTF-8.
    InvalidEncoding,
    /// The text to hand back holds a zero byte, which would cut it short
    /// in a string that a zero byte ends.
    EmbeddedNul,
}

} // verus!
