//! Normalising one yielded element into a chunk of bytes.

use vstd::prelude::*;
use vstd::string::*;

verus! {

/// What the external iterator yielded, as far as the decoder looks at it: the
/// kind of the value and, for the kinds that carry data, the data.
#[derive(Debug, PartialEq, Eq)]
pub enum Element {
    /// A raw byte array.
    Bytes(Vec<u8>),
    /// A text value.
    Text(String),
    /// A text value that holds no well-formed sequence of characters.
    MalformedText,
    /// A value of any other kind.
    Other,
}

/// Why an element could not be turned into a chunk.
#[derive(Clone, Copy, Debug, PartialEq, Eq, Structural)]
pub enum DecodeError {
    /// The element is neither a byte array nor a text value.
    UnsupportedElementKind,
    /// The element is a text value without a well-formed encoding.
    MalformedText,
}

/// The chunk that an element stands for: a byte array as it is, a text value
/// as the bytes of its UTF-8 encoding, and a failure for anything else.
pub open spec fn decoded(element: Element) -> Result<Seq<u8>, DecodeError> {
    match element {
        Element::Bytes(bytes) => Ok(bytes@),
        Element::Text(text) => Ok(vstd::utf8::encode_utf8(text@)),
        Element::MalformedText => Err(DecodeError::MalformedText),
        Element::Other => Err(DecodeError::UnsupportedElementKind),
    }
}

/// Turns one yielded element into the chunk it stands for.
pub fn decode(element: Element) -> (chunk: Result<Vec<u8>, DecodeError>)
    ensures
        match decoded(element) {
            Ok(bytes) => chunk is Ok && chunk->Ok_0@ == bytes,
            Err(error) => chunk == Err::<Vec<u8>, DecodeError>(error),
        },
{
    match element {
        Element::Bytes(bytes) => Ok(bytes),
        Element::Text(text) => Ok(text.as_str().as_bytes_vec()),
        Element::MalformedText => Err(DecodeError::MalformedText),
        Element::Other => Err(DecodeError::UnsupportedElementKind),
    }
}

} // verus!
