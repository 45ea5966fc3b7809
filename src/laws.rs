//! Properties that relate the operations to the engine and to each other.
use vstd::prelude::*;
use vstd::utf8::{decode_utf8, encode_utf8};
use crate::diagnostics::describe_outcome;
use crate::engine::{compile_error_text, first_match_of};
use crate::text_facts::lemma_encode_utf8_nul;
use crate::marshal::well_formed_text;
use crate::matching::{find_outcome, is_match_outcome, replace_all_outcome, MATCH};
use crate::registry::compile_outcome;

verus! {

/// For every compiled matcher and every UTF-8 text without NUL bytes,
/// testing the text reports a match exactly when the engine's unanchored
/// search finds a span.
pub proof fn law_is_match_iff_found(re: fancy_regex::Regex, text: Seq<u8>)
    requires
        well_formed_text(text),
    ensures
        (is_match_outcome(Some(re), Some(text)) == MATCH) <==> (first_match_of(
            re,
            decode_utf8(text),
        ) matches Ok(Some(_))),
{
}

/// On the same matcher and well-formed text, `find` hands out a buffer
/// exactly when the match test reports a match.
pub proof fn law_find_iff_match(re: fancy_regex::Regex, text: Seq<u8>)
    requires
        well_formed_text(text),
    ensures
        find_outcome(Some(re), Some(text)) is Some <==> is_match_outcome(Some(re), Some(text))
            == MATCH,
{
}

/// Where the pattern matches nowhere in the text, replacing all matches hands
/// back the text unchanged (with its terminator), whatever the replacement.
pub proof fn law_replace_all_without_match(
    re: fancy_regex::Regex,
    text: Seq<u8>,
    replacement: Seq<u8>,
)
    requires
        well_formed_text(text),
        well_formed_text(replacement),
        first_match_of(re, decode_utf8(text)) matches Ok(None),
    ensures
        replace_all_outcome(Some(re), Some(text), Some(replacement)) == Some(text.push(0u8)),
{
}

/// For a well-formed pattern whose rejection message holds no NUL, compiling
/// gives no handle exactly when the error query gives a description, and the
/// description is the engine's message; both depend on the pattern alone.
pub proof fn law_description_iff_rejected(pattern: Seq<u8>)
    requires
        well_formed_text(pattern),
        !compile_error_text(decode_utf8(pattern)).contains('\0'),
    ensures
        compile_outcome(Some(pattern)) is None <==> describe_outcome(Some(pattern)) is Some,
        describe_outcome(Some(pattern)) is Some ==> describe_outcome(Some(pattern))->0
            == encode_utf8(compile_error_text(decode_utf8(pattern))).push(0u8),
{
    lemma_encode_utf8_nul(compile_error_text(decode_utf8(pattern)));
}

} // verus!
