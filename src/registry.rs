//! Handles: one compiled matcher each, created by a successful compile and
//! owned by the caller until it hands the handle back.
use vstd::prelude::*;
use crate::engine::{compile_regex, pattern_compiles, regex_source};
use crate::marshal::{buffer_view, marshal_outcome, validate_and_borrow, BoundaryError};

verus! {

/// Exclusive ownership of one compiled matcher. The matcher is never changed
/// after it is built, so shared references to a handle may be used at once.
pub struct RegexHandle {
    regex: fancy_regex::Regex,
}

impl View for RegexHandle {
    type V = fancy_regex::Regex;

    /// A handle stands for the compiled matcher it owns.
    closed spec fn view(&self) -> fancy_regex::Regex {
        self.regex
    }
}

impl RegexHandle {
    /// The compiled matcher, for the match operations.
    pub(crate) fn regex(&self) -> (r: &fancy_regex::Regex)
        ensures
            *r == self@,
    {
        &self.regex
    }
}

/// The matcher that a handle owns, where a handle is present.
pub open spec fn handle_view(handle: Option<&RegexHandle>) -> Option<fancy_regex::Regex> {
    match handle {
        Some(h) => Some(h@),
        None => None,
    }
}

/// What compiling an input buffer gives: the pattern text of the new handle's
/// matcher (built by `Regex::new` with default options), or
/// nothing where the buffer is refused or the engine rejects the pattern.
pub open spec fn compile_outcome(pattern: Option<Seq<u8>>) -> Option<Seq<char>> {
    match marshal_outcome(pattern) {
        Ok(text) => if pattern_compiles(text) {
            Some(text)
        } else {
            None
        },
        Err(_) => None,
    }
}

/// Compiles a pattern into a new handle of its own; no two calls share a
/// matcher, even for the same pattern text.
pub fn compile(pattern: &str) -> (r: Result<RegexHandle, BoundaryError>)
    ensures
        r is Ok <==> pattern_compiles(pattern@),
        r matches Ok(h) ==> regex_source(h@) == pattern@,
        r matches Err(e) ==> e == BoundaryError::Compile,
{
    match compile_regex(pattern) {
        Ok(regex) => Ok(RegexHandle { regex }),
        Err(_) => Err(BoundaryError::Compile),
    }
}

/// Compiles the pattern in a caller's buffer. An absent or malformed buffer,
/// or a pattern the engine rejects, gives no handle and allocates nothing.
pub fn fancy_regex_new(pattern: Option<&[u8]>) -> (r: Option<Box<RegexHandle>>)
    ensures
        r is Some <==> compile_outcome(buffer_view(pattern)) is Some,
        r matches Some(h) ==> regex_source(h@) == compile_outcome(buffer_view(pattern))->0,
        pattern is None ==> r is None,
{
    let text = match validate_and_borrow(pattern) {
        Ok(text) => text,
        Err(_) => return None,
    };
    match compile(text) {
        Ok(handle) => Some(Box::new(handle)),
        Err(_) => None,
    }
}

/// Releases a handle: taking it by value ends its life, and with it the
/// matcher it owns, so no later call can reach it. An absent handle is a no-op.
pub fn fancy_regex_free(handle: Option<Box<RegexHandle>>) {
    let _released = handle;
}

} // verus!
