//! A C-style boundary around a backtracking regex engine, with every decision
//! of the boundary verified: input validation, handle lifecycle, match
//! operations and the owned, NUL-terminated output buffers.
pub mod engine;
pub mod marshal;
pub mod registry;
pub mod matching;
pub mod diagnostics;
pub mod text_facts;
pub mod laws;

pub use diagnostics::fancy_regex_get_error;
pub use marshal::{materialize_owned, validate_and_borrow, validate_text, BoundaryError};
pub use matching::{
    fancy_regex_find, fancy_regex_free_string, fancy_regex_is_match, fancy_regex_replace_all,
    search, FAILURE, MATCH, NO_MATCH,
};
pub use registry::{compile, fancy_regex_free, fancy_regex_new, RegexHandle};
