//! The compile-error query: no error state is kept between calls, so the
//! pattern is compiled again to describe why it fails.
use vstd::prelude::*;
use vstd::utf8::{encode_utf8, encode_utf8_valid_utf8, valid_utf8};
use crate::engine::{compile_error_text, compile_regex, pattern_compiles};
use crate::marshal::{buffer_view, marshal_outcome, materialize_owned, owned_buffer, validate_and_borrow};

verus! {

/// What the error query hands out for an input buffer: for a well-formed
/// pattern the engine rejects, its message as a NUL-terminated buffer;
/// otherwise nothing.
pub open spec fn describe_outcome(pattern: Option<Seq<u8>>) -> Option<Seq<u8>> {
    match marshal_outcome(pattern) {
        Ok(text) => if pattern_compiles(text) {
            None
        } else {
            owned_buffer(encode_utf8(compile_error_text(text)))
        },
        Err(_) => None,
    }
}

/// Describes why the pattern in a caller's buffer does not compile, as a new
/// NUL-terminated buffer. A pattern that compiles, or an absent or malformed
/// buffer, gives nothing; no handle is ever produced.
pub fn fancy_regex_get_error(pattern: Option<&[u8]>) -> (r: Option<Vec<u8>>)
    ensures
        r matches Some(v) ==> describe_outcome(buffer_view(pattern)) == Some(v@),
        r is None ==> describe_outcome(buffer_view(pattern)) is None,
        r matches Some(v) ==> v@.len() > 1 && valid_utf8(v@.drop_last()),
{
    let text = match validate_and_borrow(pattern) {
        Ok(text) => text,
        Err(_) => return None,
    };
    match compile_regex(text) {
        Ok(_) => None,
        Err(message) => {
            let bytes = message.as_str().as_bytes();
            proof {
                encode_utf8_valid_utf8(message@);
            }
            match materialize_owned(bytes) {
                Ok(owned) => {
                    assert(owned@.drop_last() =~= bytes@);
                    Some(owned)
                },
                Err(_) => None,
            }
        },
    }
}

} // verus!
