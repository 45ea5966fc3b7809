//! Match operations on a handle: test, first match, and literal replacement
//! of every match.
use vstd::prelude::*;
use vstd::utf8::{decode_utf8, encode_utf8, is_char_boundary, encode_utf8_decode_utf8, encode_utf8_valid_utf8, valid_utf8};
use crate::text_facts::{lemma_encode_utf8_nul, lemma_slice_valid_utf8};
use vstd::string::StringSliceAdditionalSpecFns;
use crate::engine::{find_first, first_match_of, replace_all_literal, replaced_all_of};
use crate::marshal::{
    buffer_view, marshal_outcome, materialize_owned, validate_and_borrow,
    BoundaryError,
};
use crate::registry::{handle_view, RegexHandle};

verus! {

/// Status code of a test that found a match.
pub const MATCH: i32 = 1;

/// Status code of a test that found none.
pub const NO_MATCH: i32 = 0;

/// Status code of a test that could not be made.
pub const FAILURE: i32 = -1;

/// The status code that testing `text` against a handle's pattern gives.
pub open spec fn is_match_outcome(handle: Option<fancy_regex::Regex>, text: Option<Seq<u8>>) -> i32 {
    match (handle, marshal_outcome(text)) {
        (Some(re), Ok(chars)) => match first_match_of(re, chars) {
            Ok(Some(_)) => MATCH,
            Ok(None) => NO_MATCH,
            Err(_) => FAILURE,
        },
        _ => FAILURE,
    }
}

/// The buffer that `find` hands out: the bytes of the leftmost match and a
/// NUL terminator; nothing where there is no match or the call fails.
pub open spec fn find_outcome(handle: Option<fancy_regex::Regex>, text: Option<Seq<u8>>) -> Option<Seq<u8>> {
    match (handle, marshal_outcome(text)) {
        (Some(re), Ok(chars)) => match first_match_of(re, chars) {
            Ok(Some((start, end))) => Some(text->0.subrange(start as int, end as int).push(0u8)),
            _ => None,
        },
        _ => None,
    }
}

/// The buffer that `replace_all` hands out: the text with every match
/// replaced by the literal replacement, NUL-terminated; nothing for an absent
/// or malformed input or a search that fails at run time. Where the first
/// search finds nothing the text is handed back as it is.
pub open spec fn replace_all_outcome(
    handle: Option<fancy_regex::Regex>,
    text: Option<Seq<u8>>,
    replacement: Option<Seq<u8>>,
) -> Option<Seq<u8>> {
    match (handle, marshal_outcome(text), marshal_outcome(replacement)) {
        (Some(re), Ok(chars), Ok(with)) => match first_match_of(re, chars) {
            Err(_) => None,
            Ok(None) => Some(text->0.push(0u8)),
            Ok(Some(_)) => match replaced_all_of(re, chars, with) {
                Ok(out) => Some(encode_utf8(out).push(0u8)),
                Err(_) => None,
            },
        },
        _ => None,
    }
}

/// Searches a handle's matcher for the leftmost match in `text`.
pub fn search(handle: &RegexHandle, text: &str) -> (r: Result<Option<(usize, usize)>, BoundaryError>)
    ensures
        r is Err <==> first_match_of(handle@, text@) is Err,
        r matches Ok(found) ==> first_match_of(handle@, text@)->Ok_0 == found,
        r matches Ok(Some((start, end))) ==> start <= end && end <= text.spec_bytes().len(),
        r matches Ok(Some((start, end))) ==> is_char_boundary(text.spec_bytes(), start as int)
            && is_char_boundary(text.spec_bytes(), end as int),
        r matches Err(e) ==> e == BoundaryError::MatchRuntime,
{
    match find_first(handle.regex(), text) {
        Ok(found) => Ok(found),
        Err(_) => Err(BoundaryError::MatchRuntime),
    }
}

/// Tests whether `text` holds a match of the handle's pattern anywhere:
/// `MATCH`, `NO_MATCH`, or `FAILURE` for an absent handle or text, text that
/// is not UTF-8 without NUL bytes, or a search that fails at run time.
pub fn fancy_regex_is_match(handle: Option<&RegexHandle>, text: Option<&[u8]>) -> (r: i32)
    ensures
        r == is_match_outcome(handle_view(handle), buffer_view(text)),
{
    let h = match handle {
        Some(h) => h,
        None => return FAILURE,
    };
    let chars = match validate_and_borrow(text) {
        Ok(chars) => chars,
        Err(_) => return FAILURE,
    };
    match search(h, chars) {
        Ok(Some(_)) => MATCH,
        Ok(None) => NO_MATCH,
        Err(_) => FAILURE,
    }
}

/// Finds the leftmost match in `text` and hands out its bytes as a new
/// NUL-terminated buffer. No match and failure both give nothing.
pub fn fancy_regex_find(handle: Option<&RegexHandle>, text: Option<&[u8]>) -> (r: Option<Vec<u8>>)
    ensures
        r matches Some(v) ==> find_outcome(handle_view(handle), buffer_view(text)) == Some(v@),
        r is None ==> find_outcome(handle_view(handle), buffer_view(text)) is None,
        r matches Some(v) ==> valid_utf8(v@.drop_last()) && !v@.drop_last().contains(0u8),
        r matches Some(v) ==> first_match_of(handle->0@, decode_utf8(text->0@)) matches Ok(
            Some((start, end)),
        ) && start <= end && end <= text->0@.len() && v@.len() == end - start + 1
            && text->0@.subrange(start as int, start + v@.len() - 1) == v@.drop_last(),
{
    let h = match handle {
        Some(h) => h,
        None => return None,
    };
    let chars = match validate_and_borrow(text) {
        Ok(chars) => chars,
        Err(_) => return None,
    };
    let bytes = chars.as_bytes();
    let (start, end) = match search(h, chars) {
        Ok(Some(span)) => span,
        _ => return None,
    };
    let mut matched: Vec<u8> = Vec::new();
    let mut i: usize = start;
    while i < end
        invariant
            start <= i <= end,
            end <= bytes@.len(),
            matched@ == bytes@.subrange(start as int, i as int),
        decreases end - i,
    {
        matched.push(bytes[i]);
        i = i + 1;
    }
    proof {
        encode_utf8_valid_utf8(chars@);
        lemma_slice_valid_utf8(bytes@, start as int, end as int);
        assert(!matched@.contains(0u8)) by {
            if matched@.contains(0u8) {
                let k = choose|k: int| 0 <= k < matched@.len() && matched@[k] == 0u8;
                assert(bytes@[start + k] == 0u8);
            }
        }
    }
    match materialize_owned(matched.as_slice()) {
        Ok(owned) => {
            assert(owned@.drop_last() =~= matched@);
            Some(owned)
        },
        Err(_) => None,
    }
}

/// Replaces every non-overlapping match in `text` with the literal
/// `replacement` (no group expansion) and hands out the result as a new
/// NUL-terminated buffer. Any failure gives nothing.
pub fn fancy_regex_replace_all(
    handle: Option<&RegexHandle>,
    text: Option<&[u8]>,
    replacement: Option<&[u8]>,
) -> (r: Option<Vec<u8>>)
    ensures
        r matches Some(v) ==> replace_all_outcome(
            handle_view(handle),
            buffer_view(text),
            buffer_view(replacement),
        ) == Some(v@),
        r is None ==> replace_all_outcome(
            handle_view(handle),
            buffer_view(text),
            buffer_view(replacement),
        ) is None,
        r matches Some(v) ==> valid_utf8(v@.drop_last()) && !v@.drop_last().contains(0u8),
{
    let h = match handle {
        Some(h) => h,
        None => return None,
    };
    let chars = match validate_and_borrow(text) {
        Ok(chars) => chars,
        Err(_) => return None,
    };
    let with = match validate_and_borrow(replacement) {
        Ok(with) => with,
        Err(_) => return None,
    };
    let out = match replace_all_literal(h.regex(), chars, with) {
        Ok(out) => out,
        Err(_) => return None,
    };
    let bytes = out.as_str().as_bytes();
    proof {
        encode_utf8_valid_utf8(out@);
        encode_utf8_decode_utf8(chars@);
        encode_utf8_decode_utf8(with@);
        lemma_encode_utf8_nul(chars@);
        lemma_encode_utf8_nul(with@);
        lemma_encode_utf8_nul(out@);
        assert(!out@.contains('\0')) by {
            if out@.contains('\0') {
                let i = choose|i: int| 0 <= i < out@.len() && out@[i] == '\0';
                assert(chars@.contains(out@[i]) || with@.contains(out@[i]));
            }
        }
    }
    match materialize_owned(bytes) {
        Ok(owned) => {
            assert(owned@.drop_last() =~= bytes@);
            Some(owned)
        },
        Err(_) => None,
    }
}

/// Releases a buffer handed out by `find`, `replace_all` or the error
/// description: taking it by value frees it. An absent buffer is a no-op.
pub fn fancy_regex_free_string(s: Option<Vec<u8>>) {
    let _released = s;
}

} // verus!
