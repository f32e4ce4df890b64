use onig_bridge::bridge::{create_regex, create_string, flatten_offsets, free, match_pattern};
use onig_bridge::engine::{CompiledPattern, InternedText};
use onig_bridge::errors::{downcast_error, BridgeError};
use onig_bridge::store::HandleStore;

fn compile(patterns: &mut HandleStore<CompiledPattern>, pattern: &str) -> u64 {
    create_regex(patterns, Some(pattern.as_bytes().to_vec())).expect("pattern must compile")
}

fn intern(texts: &mut HandleStore<InternedText>, text: &str) -> u64 {
    create_string(texts, Some(text.as_bytes().to_vec())).expect("text must intern")
}

fn run_match(
    patterns: &HandleStore<CompiledPattern>,
    texts: &HandleStore<InternedText>,
    regex_handle: u64,
    string_handle: u64,
    byte_offset: usize,
    begin_position: bool,
    begin_string: bool,
) -> Option<Vec<i32>> {
    match_pattern(
        patterns,
        texts,
        regex_handle,
        string_handle,
        byte_offset,
        begin_position,
        begin_string,
    )
    .expect("match must not fail")
}

#[test]
fn null_pattern_input_yields_null_handle() {
    let mut patterns: HandleStore<CompiledPattern> = HandleStore::new();
    let r = create_regex(&mut patterns, None);
    assert!(matches!(r, Ok(0)));
}

#[test]
fn null_text_input_yields_null_handle() {
    let mut texts: HandleStore<InternedText> = HandleStore::new();
    let r = create_string(&mut texts, None);
    assert!(matches!(r, Ok(0)));
}

#[test]
fn invalid_utf8_pattern_is_a_decode_error() {
    let mut patterns: HandleStore<CompiledPattern> = HandleStore::new();
    let r = create_regex(&mut patterns, Some(vec![0xff, 0xfe]));
    assert!(matches!(r, Err(BridgeError::Decode(_))));
}

#[test]
fn truncated_utf8_text_is_a_decode_error() {
    let mut texts: HandleStore<InternedText> = HandleStore::new();
    let r = create_string(&mut texts, Some(vec![b'a', 0xc3]));
    assert!(matches!(r, Err(BridgeError::Decode(_))));
}

#[test]
fn invalid_syntax_is_a_compile_error() {
    let mut patterns: HandleStore<CompiledPattern> = HandleStore::new();
    let r = create_regex(&mut patterns, Some(b"(".to_vec()));
    assert!(matches!(r, Err(BridgeError::Compile(_))));
}

#[test]
fn match_through_null_handles_fails() {
    let mut patterns: HandleStore<CompiledPattern> = HandleStore::new();
    let mut texts: HandleStore<InternedText> = HandleStore::new();
    let p = compile(&mut patterns, "a");
    let t = intern(&mut texts, "a");
    let r = match_pattern(&patterns, &texts, 0, t, 0, true, true);
    assert!(matches!(r, Err(BridgeError::NullPatternOrString)));
    let r = match_pattern(&patterns, &texts, p, 0, 0, true, true);
    assert!(matches!(r, Err(BridgeError::NullPatternOrString)));
    let r = match_pattern(&patterns, &texts, 0, 0, 0, true, true);
    assert!(matches!(r, Err(BridgeError::NullPatternOrString)));
}

#[test]
fn release_is_exactly_once() {
    let mut patterns: HandleStore<CompiledPattern> = HandleStore::new();
    let p = compile(&mut patterns, "a+b");
    assert!(matches!(free(&mut patterns, p), Ok(())));
    assert!(matches!(free(&mut patterns, p), Err(BridgeError::NullPointer)));
}

#[test]
fn releasing_the_null_handle_fails() {
    let mut texts: HandleStore<InternedText> = HandleStore::new();
    assert!(matches!(free(&mut texts, 0), Err(BridgeError::NullPointer)));
}

#[test]
fn released_handle_never_reaches_a_later_object() {
    let mut texts: HandleStore<InternedText> = HandleStore::new();
    let t1 = intern(&mut texts, "first");
    assert!(matches!(free(&mut texts, t1), Ok(())));
    let t2 = intern(&mut texts, "second");
    assert_ne!(t1, t2);
    assert!(texts.get(t1).is_none());
}

#[test]
fn partial_capture_groups_report_sentinels() {
    let mut patterns: HandleStore<CompiledPattern> = HandleStore::new();
    let mut texts: HandleStore<InternedText> = HandleStore::new();
    let p = compile(&mut patterns, "(a)(b)?");
    let t = intern(&mut texts, "a");
    let r = run_match(&patterns, &texts, p, t, 0, true, true);
    assert_eq!(r, Some(vec![0, 1, 0, 1, -1, -1]));
}

#[test]
fn no_match_is_distinct_from_an_empty_match() {
    let mut patterns: HandleStore<CompiledPattern> = HandleStore::new();
    let mut texts: HandleStore<InternedText> = HandleStore::new();
    let empty = compile(&mut patterns, "b*");
    let t = intern(&mut texts, "a");
    // A zero-length match is a result array, not "no match".
    let r = run_match(&patterns, &texts, empty, t, 0, true, true);
    assert_eq!(r, Some(vec![0, 0]));
    let nothing = compile(&mut patterns, "b+");
    let r = run_match(&patterns, &texts, nothing, t, 0, true, true);
    assert_eq!(r, None);
}

#[test]
fn match_starts_at_the_byte_offset() {
    let mut patterns: HandleStore<CompiledPattern> = HandleStore::new();
    let mut texts: HandleStore<InternedText> = HandleStore::new();
    let p = compile(&mut patterns, "a+");
    let t = intern(&mut texts, "aaxa");
    let r = run_match(&patterns, &texts, p, t, 2, true, true);
    assert_eq!(r, Some(vec![3, 4]));
}

#[test]
fn offsets_are_byte_offsets_in_multibyte_text() {
    let mut patterns: HandleStore<CompiledPattern> = HandleStore::new();
    let mut texts: HandleStore<InternedText> = HandleStore::new();
    let p = compile(&mut patterns, "llo");
    let t = intern(&mut texts, "h\u{e9}llo");
    assert_eq!(texts.get(t).expect("live").byte_len(), 6);
    let r = run_match(&patterns, &texts, p, t, 0, true, true);
    assert_eq!(r, Some(vec![3, 6]));
}

#[test]
fn offset_at_text_end_still_searches() {
    let mut patterns: HandleStore<CompiledPattern> = HandleStore::new();
    let mut texts: HandleStore<InternedText> = HandleStore::new();
    let p = compile(&mut patterns, "a*");
    let t = intern(&mut texts, "aa");
    let r = run_match(&patterns, &texts, p, t, 2, true, true);
    assert_eq!(r, Some(vec![2, 2]));
}

#[test]
fn string_anchor_flag_changes_the_outcome() {
    let mut patterns: HandleStore<CompiledPattern> = HandleStore::new();
    let mut texts: HandleStore<InternedText> = HandleStore::new();
    let p = compile(&mut patterns, "\\Aa");
    let t = intern(&mut texts, "ab");
    let anchored = run_match(&patterns, &texts, p, t, 0, true, true);
    assert_eq!(anchored, Some(vec![0, 1]));
    let suppressed = run_match(&patterns, &texts, p, t, 0, true, false);
    assert_eq!(suppressed, None);
}

#[test]
fn position_anchor_flag_changes_the_outcome() {
    let mut patterns: HandleStore<CompiledPattern> = HandleStore::new();
    let mut texts: HandleStore<InternedText> = HandleStore::new();
    let p = compile(&mut patterns, "\\Ga");
    let t = intern(&mut texts, "xa");
    let at_position = run_match(&patterns, &texts, p, t, 1, true, true);
    assert_eq!(at_position, Some(vec![1, 2]));
    let suppressed = run_match(&patterns, &texts, p, t, 1, false, true);
    assert_eq!(suppressed, None);
}

#[test]
fn shared_pattern_gives_each_text_its_own_answer() {
    let mut patterns: HandleStore<CompiledPattern> = HandleStore::new();
    let mut texts: HandleStore<InternedText> = HandleStore::new();
    let p = compile(&mut patterns, "(x+)y?");
    let t1 = intern(&mut texts, "axx");
    let t2 = intern(&mut texts, "xy");
    let alone1 = run_match(&patterns, &texts, p, t1, 0, true, true);
    let alone2 = run_match(&patterns, &texts, p, t2, 0, true, true);
    // Interleaved searches through the same pattern handle see exactly the
    // answers they would see alone.
    let first1 = run_match(&patterns, &texts, p, t1, 0, true, true);
    let first2 = run_match(&patterns, &texts, p, t2, 0, true, true);
    let second1 = run_match(&patterns, &texts, p, t1, 0, true, true);
    assert_eq!(alone1, Some(vec![1, 3, 1, 3]));
    assert_eq!(alone2, Some(vec![0, 2, 0, 1]));
    assert_eq!(first1, alone1);
    assert_eq!(first2, alone2);
    assert_eq!(second1, alone1);
}

#[test]
fn empty_pattern_and_empty_text_match_empty() {
    let mut patterns: HandleStore<CompiledPattern> = HandleStore::new();
    let mut texts: HandleStore<InternedText> = HandleStore::new();
    let p = compile(&mut patterns, "");
    let t = intern(&mut texts, "");
    let r = run_match(&patterns, &texts, p, t, 0, true, true);
    assert_eq!(r, Some(vec![0, 0]));
}

#[test]
fn flatten_substitutes_sentinel_pairs() {
    let spans: Vec<Option<(usize, usize)>> = vec![Some((0, 4)), None, Some((2, 4)), None];
    let flat = flatten_offsets(&spans);
    assert_eq!(flat, vec![0, 4, -1, -1, 2, 4, -1, -1]);
}

#[test]
fn flatten_of_no_spans_is_empty() {
    let spans: Vec<Option<(usize, usize)>> = Vec::new();
    let flat = flatten_offsets(&spans);
    assert_eq!(flat, Vec::<i32>::new());
}

#[test]
fn downcast_error_keeps_the_description() {
    let e = downcast_error(Some("boom".to_string()));
    assert!(matches!(e, BridgeError::Panic(m) if m == "boom"));
    let e = downcast_error(None);
    assert!(matches!(e, BridgeError::Panic(m) if m == "Unknown"));
}
