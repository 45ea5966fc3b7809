use fancy_regex_ffi::{
    compile, fancy_regex_find, fancy_regex_free, fancy_regex_free_string, fancy_regex_get_error,
    fancy_regex_is_match, fancy_regex_new, fancy_regex_replace_all, materialize_owned, search,
    validate_and_borrow, BoundaryError, FAILURE, MATCH, NO_MATCH,
};

fn text_of(buffer: &[u8]) -> &str {
    assert_eq!(buffer.last(), Some(&0u8));
    std::str::from_utf8(&buffer[..buffer.len() - 1]).unwrap()
}

#[test]
fn test_basic_matching() {
    let handle = fancy_regex_new(Some(r"\d+".as_bytes()));
    assert!(handle.is_some());

    let result = fancy_regex_is_match(handle.as_deref(), Some("hello 123 world".as_bytes()));
    assert_eq!(result, 1);

    fancy_regex_free(handle);
}

#[test]
fn test_find() {
    let handle = fancy_regex_new(Some(r"\d+".as_bytes()));
    assert!(handle.is_some());

    let found = fancy_regex_find(handle.as_deref(), Some("hello 123 world".as_bytes()));
    assert!(found.is_some());

    let found_str = text_of(found.as_ref().unwrap()).to_string();
    assert_eq!(found_str, "123");

    fancy_regex_free_string(found);
    fancy_regex_free(handle);
}

#[test]
fn replace_all_digits_with_literal() {
    let handle = fancy_regex_new(Some(r"\d+".as_bytes()));
    let out = fancy_regex_replace_all(
        handle.as_deref(),
        Some("a1 b22 c333".as_bytes()),
        Some("#".as_bytes()),
    );
    assert_eq!(out, Some(b"a# b# c#\0".to_vec()));
    fancy_regex_free(handle);
}

#[test]
fn replacement_is_not_expanded() {
    let handle = fancy_regex_new(Some(r"(\d)".as_bytes()));
    let out = fancy_regex_replace_all(handle.as_deref(), Some("a1b2".as_bytes()), Some("<$1>".as_bytes()));
    assert_eq!(out, Some(b"a<$1>b<$1>\0".to_vec()));
    fancy_regex_free(handle);
}

#[test]
fn replace_all_without_match_returns_text() {
    let handle = fancy_regex_new(Some(r"\d+".as_bytes()));
    let out = fancy_regex_replace_all(handle.as_deref(), Some("no digits".as_bytes()), Some("#".as_bytes()));
    assert_eq!(out, Some(b"no digits\0".to_vec()));
    let empty = fancy_regex_replace_all(handle.as_deref(), Some("".as_bytes()), Some("#".as_bytes()));
    assert_eq!(empty, Some(b"\0".to_vec()));
    fancy_regex_free(handle);
}

#[test]
fn unbalanced_group_is_rejected_and_described() {
    let handle = fancy_regex_new(Some("(".as_bytes()));
    assert!(handle.is_none());
    let message = fancy_regex_get_error(Some("(".as_bytes()));
    assert!(message.is_some());
    let text = text_of(message.as_ref().unwrap()).to_string();
    assert!(!text.is_empty());
    assert!(text.contains("parenthesis"));
    fancy_regex_free_string(message);
}

#[test]
fn valid_pattern_has_no_error_description() {
    assert_eq!(fancy_regex_get_error(Some(r"\d+".as_bytes())), None);
    assert_eq!(fancy_regex_get_error(Some(r"(\w+) \1".as_bytes())), None);
}

#[test]
fn null_pattern_gives_no_handle_and_no_description() {
    assert!(fancy_regex_new(None).is_none());
    assert_eq!(fancy_regex_get_error(None), None);
}

#[test]
fn malformed_pattern_buffers_are_refused() {
    assert!(fancy_regex_new(Some(&[0xffu8, 0x61][..])).is_none());
    assert!(fancy_regex_new(Some(&[0x61u8, 0x00, 0x62][..])).is_none());
    assert_eq!(fancy_regex_get_error(Some(&[0xc3u8][..])), None);
}

#[test]
fn is_match_reports_each_status() {
    let handle = fancy_regex_new(Some(r"\d+".as_bytes()));
    let h = handle.as_deref();
    assert_eq!(fancy_regex_is_match(h, Some("abc 7".as_bytes())), MATCH);
    assert_eq!(fancy_regex_is_match(h, Some("abc".as_bytes())), NO_MATCH);
    assert_eq!(fancy_regex_is_match(h, Some("".as_bytes())), NO_MATCH);
    assert_eq!(fancy_regex_is_match(h, None), FAILURE);
    assert_eq!(fancy_regex_is_match(None, Some("abc 7".as_bytes())), FAILURE);
    assert_eq!(fancy_regex_is_match(h, Some(&[0x31u8, 0xfe][..])), FAILURE);
    assert_eq!(fancy_regex_is_match(h, Some(&[0x31u8, 0x00][..])), FAILURE);
    assert_eq!(MATCH, 1);
    assert_eq!(NO_MATCH, 0);
    assert_eq!(FAILURE, -1);
    fancy_regex_free(handle);
}

#[test]
fn find_gives_nothing_without_match_or_inputs() {
    let handle = fancy_regex_new(Some(r"\d+".as_bytes()));
    assert_eq!(fancy_regex_find(handle.as_deref(), Some("abc".as_bytes())), None);
    assert_eq!(fancy_regex_find(handle.as_deref(), None), None);
    assert_eq!(fancy_regex_find(None, Some("123".as_bytes())), None);
    fancy_regex_free(handle);
}

#[test]
fn find_returns_bytes_at_reported_offsets() {
    let text = "héllo wörld 42!";
    let handle = compile(r"w\S+").unwrap();
    let span = search(&handle, text).unwrap().unwrap();
    assert_eq!(span, (7, 13));
    let found = fancy_regex_find(Some(&handle), Some(text.as_bytes())).unwrap();
    assert_eq!(&found[..found.len() - 1], &text.as_bytes()[span.0..span.1]);
    assert_eq!(text_of(&found), "wörld");
}

#[test]
fn lookaround_and_backreference_patterns() {
    let look = fancy_regex_new(Some(r"\w+(?=!)".as_bytes()));
    let found = fancy_regex_find(look.as_deref(), Some("so fancy!".as_bytes()));
    assert_eq!(found, Some(b"fancy\0".to_vec()));
    let back = fancy_regex_new(Some(r"(\w+) \1".as_bytes()));
    assert_eq!(fancy_regex_is_match(back.as_deref(), Some("mirror mirror on the wall".as_bytes())), MATCH);
    assert_eq!(fancy_regex_is_match(back.as_deref(), Some("mirror on the wall".as_bytes())), NO_MATCH);
    fancy_regex_free(look);
    fancy_regex_free(back);
}

#[test]
fn each_compile_gives_its_own_handle() {
    let first = fancy_regex_new(Some("a".as_bytes()));
    let second = fancy_regex_new(Some("a".as_bytes()));
    fancy_regex_free(first);
    assert_eq!(fancy_regex_is_match(second.as_deref(), Some("cat".as_bytes())), MATCH);
    fancy_regex_free(second);
    fancy_regex_free(None);
    fancy_regex_free_string(None);
}

#[test]
fn compile_reports_rejection() {
    assert!(compile("(").is_err());
    assert_eq!(compile("[").err(), Some(BoundaryError::Compile));
}

#[test]
fn owned_buffers_are_terminated_and_refuse_nul() {
    assert_eq!(materialize_owned(b"abc"), Ok(b"abc\0".to_vec()));
    assert_eq!(materialize_owned(b""), Ok(b"\0".to_vec()));
    assert_eq!(materialize_owned(b"a\0c"), Err(BoundaryError::Allocation));
}

#[test]
fn input_buffers_are_validated() {
    assert_eq!(validate_and_borrow(None), Err(BoundaryError::NullInput));
    assert_eq!(validate_and_borrow(Some(&[0x80u8][..])), Err(BoundaryError::Encoding));
    assert_eq!(validate_and_borrow(Some(&[0x61u8, 0x00][..])), Err(BoundaryError::Encoding));
    assert_eq!(validate_and_borrow(Some("dé".as_bytes())), Ok("dé"));
}

#[test]
fn error_description_is_recomputed_identically() {
    let first = fancy_regex_get_error(Some("a(b".as_bytes()));
    let second = fancy_regex_get_error(Some("a(b".as_bytes()));
    assert!(first.is_some());
    assert_eq!(first, second);
    let text = text_of(first.as_ref().unwrap()).to_string();
    assert!(text.starts_with("Parsing error"));
}

#[test]
fn handle_absent_exactly_when_described() {
    for pattern in ["(", "[", "a{", r"\d+", "(?=x)y", r"(\w)\1"] {
        let handle = fancy_regex_new(Some(pattern.as_bytes()));
        let described = fancy_regex_get_error(Some(pattern.as_bytes()));
        assert_eq!(handle.is_none(), described.is_some());
        fancy_regex_free(handle);
    }
}

#[test]
fn multibyte_text_round_trips_through_replace_and_find() {
    let handle = fancy_regex_new(Some("ö+".as_bytes()));
    let out = fancy_regex_replace_all(handle.as_deref(), Some("wöörld ö".as_bytes()), Some("é".as_bytes()));
    let out = out.unwrap();
    assert_eq!(text_of(&out), "wérld é");
    let found = fancy_regex_find(handle.as_deref(), Some("xöy".as_bytes())).unwrap();
    assert_eq!(text_of(&found), "ö");
    fancy_regex_free(handle);
}
