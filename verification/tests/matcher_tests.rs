use shared_kit::filter::{FilterMatcher, MatchResult, PatternSpec as FilterPattern};
use shared_kit::matcher::{
    Matcher, MatcherBuilder, MatcherError, MatcherStyle, PatternKind, PatternSpec,
};
use shared_kit::pattern::PatternCache;

#[test]
fn test_pattern_kind_parse() {
    assert_eq!(PatternKind::parse("regex:.*"), PatternKind::Regex(".*".to_string()));
    assert_eq!(PatternKind::parse("*.txt"), PatternKind::Glob("*.txt".to_string()));
}

#[test]
fn test_pattern_spec_is_match_strict() {
    let spec = PatternSpec::new("file.txt", None::<()>, Some(MatcherStyle::Strict));
    assert!(spec.is_match("file.txt").unwrap());
    assert!(!spec.is_match("other_file.txt").unwrap());
}

#[test]
fn test_pattern_spec_is_match_loose() {
    let spec = PatternSpec::new("file", None::<()>, Some(MatcherStyle::Loose));
    assert!(spec.is_match("file.txt").unwrap());
    assert!(spec.is_match("other_file.txt").unwrap());
    assert!(!spec.is_match("random.rs").unwrap());
}

#[test]
fn test_matcher_with_include_and_exclude() {
    let matcher = MatcherBuilder::new()
        .with_include_str("*.txt", None::<()>)
        .with_exclude_str("secret.txt", None::<()>)
        .build();

    assert!(matcher.is_match("file.txt").unwrap().is_matched());
    assert!(matcher.is_match("secret.txt").unwrap().is_in_exclude());
    assert!(matcher.is_match("random.rs").unwrap().is_no_matched());
}

#[test]
fn test_matcher_with_regex_and_glob() {
    let matcher = MatcherBuilder::new()
        .with_include_str("regex:^file\\d+\\.txt$", None::<()>)
        .with_include_str("*.log", None::<()>)
        .build();

    assert!(matcher.is_match("file123.txt").unwrap().is_matched());
    assert!(matcher.is_match("error.log").unwrap().is_matched());
    assert!(matcher.is_match("random.rs").unwrap().is_no_matched());
}

#[test]
fn test_matcher_style_interaction() {
    let matcher = MatcherBuilder::new()
        .with_include(PatternSpec::new("file", None::<()>, Some(MatcherStyle::Loose)))
        .with_exclude(PatternSpec::new("file.txt", None::<()>, Some(MatcherStyle::Strict)))
        .build();

    assert!(matcher.is_match("file.txt").unwrap().is_in_exclude());
    assert!(matcher.is_match("file123.txt").unwrap().is_matched());
    assert!(matcher.is_match("random.rs").unwrap().is_no_matched());
}

#[test]
fn test_matcher_empty_patterns() {
    let matcher: Matcher<()> = MatcherBuilder::<()>::new().build();

    assert!(matcher.is_match("file.txt").unwrap().is_no_matched());
    assert!(matcher.is_match("random.rs").unwrap().is_no_matched());
}

#[test]
fn test_invalid_regex_errors_at_match() {
    let spec = PatternSpec::new("regex:(", None::<()>, Some(MatcherStyle::Strict));
    match spec.is_match("anything") {
        Err(MatcherError::NewRegex { value }) => assert_eq!(value, "("),
        other => panic!("expected a regex error, got {:?}", other),
    }
}

#[test]
fn test_invalid_glob_errors_in_filter() {
    let patterns = vec![FilterPattern::Glob("a[".to_string())];
    let r = FilterMatcher::new(patterns, Vec::new());
    match r {
        Err(MatcherError::NewGlob { value }) => assert_eq!(value, "a["),
        other => panic!("expected a glob error, got {:?}", other),
    }
}

#[test]
fn test_filter_excludes_dominate_includes() {
    let includes = FilterPattern::from_option_vec(Some(vec!["**".to_string()]));
    let excludes = FilterPattern::from_option_vec(Some(vec!["secret.key".to_string()]));
    let fm = FilterMatcher::new(includes, excludes).unwrap();
    assert_eq!(fm.matches("secret.key"), MatchResult::Excluded);
    assert_eq!(fm.matches("note.txt"), MatchResult::Matched);
}

#[test]
fn test_filter_empty_sets_match_everything() {
    let fm = FilterMatcher::new(Vec::new(), Vec::new()).unwrap();
    assert_eq!(fm.matches("anything"), MatchResult::Matched);
    assert_eq!(fm.matches("deep/nested/path.rs"), MatchResult::Matched);
    assert_eq!(fm.matches(""), MatchResult::Matched);
}

#[test]
fn test_filter_not_included() {
    let includes = vec![FilterPattern::Glob("*.txt".to_string())];
    let fm = FilterMatcher::new(includes, Vec::new()).unwrap();
    assert_eq!(fm.matches("main.rs"), MatchResult::NotIncluded);
    assert_eq!(fm.matches("note.txt"), MatchResult::Matched);
}

#[test]
fn test_oversized_glob_is_rejected_not_fatal() {
    // accepted by the glob parser, but past the engine's compiled-size
    // limit once the wildcard forces real regex compilation; must come
    // back as an error, not end the process
    let big = format!("a*{}", "x".repeat(1024 * 1024));
    let spec = PatternSpec::new(&big, None::<()>, Some(MatcherStyle::Strict));
    match spec.is_match("anything") {
        Err(MatcherError::NewGlob { value }) => assert_eq!(value.len(), big.len()),
        Ok(matched) => panic!("expected a glob error, got Ok({matched})"),
        Err(other) => panic!("expected a glob error, got {:?}", other),
    }
}

#[test]
fn test_pattern_cache_answers_like_direct_matching() {
    let mut cache = PatternCache::new();
    let glob = PatternSpec::new("*.txt", None::<()>, Some(MatcherStyle::Strict));
    assert!(glob.is_match_cached(&mut cache, "a.txt").unwrap());
    assert!(!glob.is_match_cached(&mut cache, "b.rs").unwrap());
    let re = PatternSpec::new("regex:^a+$", None::<()>, Some(MatcherStyle::Strict));
    assert!(re.is_match_cached(&mut cache, "aaa").unwrap());
    assert!(!re.is_match_cached(&mut cache, "baa").unwrap());
    // same pattern text again: answered from the cache, same result
    assert!(glob.is_match_cached(&mut cache, "a.txt").unwrap());
}

#[test]
fn test_matcher_cached_evaluation() {
    let matcher = MatcherBuilder::new()
        .with_include_str("*.txt", None::<()>)
        .with_exclude_str("secret.txt", None::<()>)
        .build();
    let mut cache = PatternCache::new();
    assert!(matcher.is_match_cached(&mut cache, "file.txt").unwrap().is_matched());
    assert!(matcher.is_match_cached(&mut cache, "secret.txt").unwrap().is_in_exclude());
    assert!(matcher.is_match_cached(&mut cache, "random.rs").unwrap().is_no_matched());
}

#[test]
fn test_validate_fails_fast_on_malformed_pattern() {
    let bad: Matcher<()> = MatcherBuilder::new().with_include_str("regex:(", None).build();
    match bad.validate() {
        Err(MatcherError::NewRegex { value }) => assert_eq!(value, "("),
        other => panic!("expected a regex error, got {:?}", other),
    }
    let good: Matcher<()> = MatcherBuilder::new()
        .with_include_str("*.txt", None)
        .with_exclude_str("regex:^a$", None)
        .build();
    assert!(good.validate().is_ok());
}

#[test]
fn test_pattern_label() {
    assert_eq!(FilterPattern::parse("*.rs").label(), "glob:*.rs");
    assert_eq!(FilterPattern::parse("regex:^a$").label(), "regex:^a$");
}
