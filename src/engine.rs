//! What this library takes from the `fancy_regex` engine and from std, and
//! what it assumes of each call.
use vstd::prelude::*;
use vstd::utf8::{is_char_boundary, valid_utf8};
use vstd::string::StringSliceAdditionalSpecFns;

verus! {

#[verifier::external_type_specification]
#[verifier::external_body]
pub struct ExRegex(fancy_regex::Regex);

#[verifier::external_type_specification]
#[verifier::external_body]
pub struct ExRegexError(fancy_regex::Error);

/// The pattern text that a compiled regex holds (what `Regex::as_str` hands back).
pub uninterp spec fn regex_source(re: fancy_regex::Regex) -> Seq<char>;

/// Whether `Regex::new` (default options) accepts the pattern.
pub uninterp spec fn pattern_compiles(pattern: Seq<char>) -> bool;

/// The message (`Display` of the error) with which `Regex::new` rejects a pattern.
pub uninterp spec fn compile_error_text(pattern: Seq<char>) -> Seq<char>;

/// The first (leftmost) match that `Regex::find` reports for the compiled
/// regex `re` on `text`, as byte offsets into the UTF-8 encoding of `text`;
/// `Err(())` where the search fails at run time. It is keyed by the regex
/// itself, options included, not by its pattern text alone.
pub uninterp spec fn first_match_of(re: fancy_regex::Regex, text: Seq<char>) -> Result<
    Option<(usize, usize)>,
    (),
>;

/// The text that `Regex::try_replacen` with no limit and a literal
/// (`NoExpand`) replacement produces for the compiled regex `re`; `Err(())`
/// where a search fails at run time.
pub uninterp spec fn replaced_all_of(
    re: fancy_regex::Regex,
    text: Seq<char>,
    replacement: Seq<char>,
) -> Result<Seq<char>, ()>;

/// Relies on `std::str::from_utf8`: it accepts exactly the well-formed UTF-8
/// byte sequences and then borrows the same bytes as text.
#[verifier::external_body]
pub(crate) fn utf8_text<'a>(bytes: &'a [u8]) -> (r: Option<&'a str>)
    ensures
        r is Some <==> valid_utf8(bytes@),
        r matches Some(s) ==> s.spec_bytes() == bytes@,
{
    match std::str::from_utf8(bytes) {
        Ok(s) => Some(s),
        Err(_) => None,
    }
}

/// Relies on `fancy_regex::Regex::new`: it succeeds exactly on the patterns it
/// accepts, and the compiled regex keeps the pattern text (`Regex::as_str`).
/// A rejection is handed on as the error's `Display` text, which always starts
/// with a fixed, non-empty description of the failure.
#[verifier::external_body]
pub(crate) fn compile_regex(pattern: &str) -> (r: Result<fancy_regex::Regex, String>)
    ensures
        r is Ok <==> pattern_compiles(pattern@),
        r matches Ok(re) ==> regex_source(re) == pattern@,
        r matches Err(message) ==> message@ == compile_error_text(pattern@),
        r matches Err(message) ==> message@.len() > 0,
{
    match fancy_regex::Regex::new(pattern) {
        Ok(re) => Ok(re),
        Err(e) => Err(format!("{}", e)),
    }
}

/// Relies on `fancy_regex::Regex::find`: the leftmost match as byte offsets
/// (`Match::start`, `Match::end`) into the searched text. They lie on
/// character boundaries, since `Match::as_str` slices the text between them.
#[verifier::external_body]
pub(crate) fn find_first(re: &fancy_regex::Regex, text: &str) -> (r: Result<Option<(usize, usize)>, fancy_regex::Error>)
    ensures
        r is Err <==> first_match_of(*re, text@) is Err,
        r matches Ok(found) ==> first_match_of(*re, text@)->Ok_0 == found,
        r matches Ok(Some((start, end))) ==> start <= end && end <= text.spec_bytes().len(),
        r matches Ok(Some((start, end))) ==> is_char_boundary(text.spec_bytes(), start as int)
            && is_char_boundary(text.spec_bytes(), end as int),
{
    match re.find(text) {
        Ok(Some(m)) => Ok(Some((m.start(), m.end()))),
        Ok(None) => Ok(None),
        Err(e) => Err(e),
    }
}

/// Relies on `fancy_regex::Regex::try_replacen` with limit 0 and a `NoExpand`
/// replacement: every non-overlapping match is replaced by the literal text.
/// Its first search is the one `Regex::find` makes: where that finds nothing
/// the text comes back as it is, and where it fails the whole call fails.
/// The output is spliced from slices of the text and copies of the
/// replacement, so each of its characters comes from one of the two.
#[verifier::external_body]
pub(crate) fn replace_all_literal(re: &fancy_regex::Regex, text: &str, replacement: &str) -> (r: Result<String, fancy_regex::Error>)
    ensures
        r is Err <==> replaced_all_of(*re, text@, replacement@) is Err,
        r matches Ok(out) ==> replaced_all_of(*re, text@, replacement@)->Ok_0 == out@,
        first_match_of(*re, text@) matches Ok(None) ==> r is Ok,
        r matches Ok(out) ==> (first_match_of(*re, text@) matches Ok(None) ==> out@ == text@),
        first_match_of(*re, text@) is Err ==> r is Err,
        r matches Ok(out) ==> forall|i: int|
            0 <= i < out@.len() ==> text@.contains(#[trigger] out@[i]) || replacement@.contains(
                out@[i],
            ),
{
    match re.try_replacen(text, 0, fancy_regex::NoExpand(replacement)) {
        Ok(out) => Ok(out.into_owned()),
        Err(e) => Err(e),
    }
}

} // verus!
