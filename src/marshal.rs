//! Conversion between the caller's byte buffers and text: validation on the
//! way in, NUL-terminated owned buffers on the way out.
use vstd::prelude::*;
use vstd::utf8::{decode_utf8, encode_utf8_decode_utf8, valid_utf8};
use vstd::string::StringSliceAdditionalSpecFns;
use crate::engine::utf8_text;

verus! {

/// The failures that can arise at the boundary. Every one of them reaches the
/// caller as a sentinel; the kinds are kept apart inside the library.
#[derive(Clone, Copy, Debug, PartialEq, Eq, Structural)]
pub enum BoundaryError {
    /// A required buffer was absent.
    NullInput,
    /// A buffer was not UTF-8 text without NUL bytes.
    Encoding,
    /// The pattern was rejected by the engine.
    Compile,
    /// The engine's search failed at run time.
    MatchRuntime,
    /// An output could not be handed out as a NUL-terminated buffer.
    Allocation,
}

/// The bytes of an optional input buffer.
pub open spec fn buffer_view(raw: Option<&[u8]>) -> Option<Seq<u8>> {
    match raw {
        Some(b) => Some(b@),
        None => None,
    }
}

/// Input text: UTF-8, and free of NUL bytes (which end a C string).
pub open spec fn well_formed_text(bytes: Seq<u8>) -> bool {
    !bytes.contains(0u8) && valid_utf8(bytes)
}

/// The text that an input buffer stands for, or why it is refused.
pub open spec fn marshal_outcome(raw: Option<Seq<u8>>) -> Result<Seq<char>, BoundaryError> {
    match raw {
        None => Err(BoundaryError::NullInput),
        Some(bytes) => if well_formed_text(bytes) {
            Ok(decode_utf8(bytes))
        } else {
            Err(BoundaryError::Encoding)
        },
    }
}

/// An output text as a caller-owned buffer: its bytes and a NUL terminator,
/// or nothing where the text itself holds a NUL.
pub open spec fn owned_buffer(bytes: Seq<u8>) -> Option<Seq<u8>> {
    if bytes.contains(0u8) {
        None
    } else {
        Some(bytes.push(0u8))
    }
}

/// Checks an input buffer and borrows it as text for the length of the call.
pub fn validate_and_borrow<'a>(raw: Option<&'a [u8]>) -> (r: Result<&'a str, BoundaryError>)
    ensures
        r is Ok <==> marshal_outcome(buffer_view(raw)) is Ok,
        r matches Ok(s) ==> marshal_outcome(buffer_view(raw))->Ok_0 == s@ && s.spec_bytes()
            == raw->0@,
        r matches Err(e) ==> marshal_outcome(buffer_view(raw))->Err_0 == e,
{
    match raw {
        Some(bytes) => validate_text(bytes),
        None => Err(BoundaryError::NullInput),
    }
}

/// Checks that a present buffer is text without NUL bytes and borrows it.
pub fn validate_text<'a>(bytes: &'a [u8]) -> (r: Result<&'a str, BoundaryError>)
    ensures
        r is Ok <==> well_formed_text(bytes@),
        r matches Ok(s) ==> s@ == decode_utf8(bytes@) && s.spec_bytes() == bytes@,
        r matches Err(e) ==> e == BoundaryError::Encoding,
{
    let mut i: usize = 0;
    while i < bytes.len()
        invariant
            0 <= i <= bytes@.len(),
            forall|j: int| 0 <= j < i ==> bytes@[j] != 0u8,
        decreases bytes@.len() - i,
    {
        if bytes[i] == 0u8 {
            assert(bytes@[i as int] == 0u8);
            return Err(BoundaryError::Encoding);
        }
        i = i + 1;
    }
    match utf8_text(bytes) {
        Some(s) => {
            proof {
                encode_utf8_decode_utf8(s@);
            }
            Ok(s)
        },
        None => Err(BoundaryError::Encoding),
    }
}

/// Copies an output text into a new NUL-terminated buffer owned by the
/// caller; refuses a text that holds a NUL, which no such buffer can carry.
pub fn materialize_owned(text: &[u8]) -> (r: Result<Vec<u8>, BoundaryError>)
    ensures
        r matches Ok(v) ==> owned_buffer(text@) == Some(v@),
        r matches Err(e) ==> owned_buffer(text@) is None && e == BoundaryError::Allocation,
{
    let mut out: Vec<u8> = Vec::new();
    let mut i: usize = 0;
    while i < text.len()
        invariant
            0 <= i <= text@.len(),
            out@ == text@.subrange(0, i as int),
            forall|j: int| 0 <= j < i ==> text@[j] != 0u8,
        decreases text@.len() - i,
    {
        if text[i] == 0u8 {
            assert(text@[i as int] == 0u8);
            return Err(BoundaryError::Allocation);
        }
        out.push(text[i]);
        i = i + 1;
    }
    assert(out@ == text@);
    out.push(0u8);
    Ok(out)
}

} // verus!
