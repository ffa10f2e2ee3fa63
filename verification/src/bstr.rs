//! Byte strings with an explicit length.

use vstd::prelude::*;

verus! {

/// A byte string with an explicit length and no closing zero byte.
///
/// A `BStr` is either null or a buffer of bytes. The null string has no buffer
/// and the length zero; it is what stands for "no result". An empty buffer is
/// a string as any other, and is not null.
#[derive(Debug)]
pub struct BStr {
    data: Option<Vec<u8>>,
}

impl View for BStr {
    type V = Option<Seq<u8>>;

    /// `None` for the null string, else the bytes of the buffer.
    closed spec fn view(&self) -> Option<Seq<u8>> {
        match self.data {
            Some(buf) => Some(buf@),
            None => None,
        }
    }
}

impl BStr {
    /// The bytes that the string holds: those of its buffer, and none for the
    /// null string.
    pub open spec fn bytes(&self) -> Seq<u8> {
        match self@ {
            Some(bytes) => bytes,
            None => Seq::empty(),
        }
    }

    /// The null string.
    pub fn null() -> (s: BStr)
        ensures
            s@ is None,
    {
        BStr { data: None }
    }

    /// The string whose buffer is `bytes`.
    pub fn new(bytes: Vec<u8>) -> (s: BStr)
        ensures
            s@ == Some(bytes@),
    {
        BStr { data: Some(bytes) }
    }

    /// Whether this is the null string.
    pub fn is_null(&self) -> (null: bool)
        ensures
            null == (self@ is None),
    {
        self.data.is_none()
    }

    /// The number of bytes that the string holds.
    pub fn len(&self) -> (n: usize)
        ensures
            n == self.bytes().len(),
    {
        match &self.data {
            Some(buf) => buf.len(),
            None => 0,
        }
    }

    /// The bytes of the buffer, or `None` for the null string.
    pub fn as_bytes(&self) -> (bytes: Option<&[u8]>)
        ensures
            match bytes {
                Some(b) => self@ == Some(b@),
                None => self@ is None,
            },
    {
        match &self.data {
            Some(buf) => Some(buf.as_slice()),
            None => None,
        }
    }
}

} // verus!
