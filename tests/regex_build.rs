use grex_bridge::adapter::{configure, prepare};
use grex_bridge::engine::Engine;
use grex_bridge::examples::normalize_examples;
use grex_bridge::features::{feature_from_token, map_features};
use grex_bridge::options::{decode_options, key, Field};
use grex_bridge::value::{find_key, to_count};
use grex_bridge::{build_regex, BuildError, Feature, Value};

fn s(t: &str) -> Value {
    Value::Str(t.to_string())
}

fn strs(ts: &[&str]) -> Vec<Value> {
    ts.iter().map(|t| s(t)).collect()
}

fn obj(entries: Vec<(&str, Value)>) -> Value {
    Value::Object(entries.into_iter().map(|(k, v)| (k.to_string(), v)).collect())
}

fn no_config() -> Value {
    Value::Undefined
}

fn matches_whole(pattern: &str, text: &str) -> bool {
    regex::Regex::new(pattern).unwrap().is_match(text)
}

#[test]
fn three_examples_with_digits() {
    let p = build_regex(&strs(&["a1", "a2", "a3"]), &no_config()).unwrap();
    for t in ["a1", "a2", "a3"] {
        assert!(matches_whole(&p, t));
    }
    assert!(!matches_whole(&p, "a4"));
    assert_eq!(p, "^a[1-3]$");
}

#[test]
fn duplicate_examples_are_dropped() {
    let cases = normalize_examples(&strs(&["x", "x", "y"])).unwrap();
    assert_eq!(cases, vec!["x".to_string(), "y".to_string()]);
    let with_dups = build_regex(&strs(&["x", "x", "y"]), &no_config()).unwrap();
    let without = build_regex(&strs(&["x", "y"]), &no_config()).unwrap();
    assert_eq!(with_dups, without);
}

#[test]
fn dedup_keeps_first_occurrence_order() {
    let cases = normalize_examples(&strs(&["b", "a", "b", "c", "a"])).unwrap();
    assert_eq!(cases, vec!["b".to_string(), "a".to_string(), "c".to_string()]);
}

#[test]
fn non_string_example_fails() {
    let ex = vec![Value::Number(1), s("y")];
    assert_eq!(build_regex(&ex, &no_config()), Err(BuildError::TypeMismatch));
    let cfg = obj(vec![("minimumRepetitions", Value::Number(0))]);
    assert_eq!(build_regex(&ex, &cfg), Err(BuildError::TypeMismatch));
    assert_eq!(normalize_examples(&ex), Err(BuildError::TypeMismatch));
}

#[test]
fn non_string_example_last_fails() {
    let ex = vec![s("a"), s("b"), Value::Null];
    assert_eq!(build_regex(&ex, &no_config()), Err(BuildError::TypeMismatch));
}

#[test]
fn empty_examples_are_refused() {
    assert_eq!(build_regex(&vec![], &no_config()), Err(BuildError::NoExamples));
}

#[test]
fn zero_minimum_repetitions_is_refused() {
    let cfg = obj(vec![("minimumRepetitions", Value::Number(-3))]);
    assert_eq!(build_regex(&strs(&["aa"]), &cfg), Err(BuildError::ZeroMinimumRepetitions));
}

#[test]
fn zero_minimum_substring_length_is_refused() {
    let cfg = obj(vec![("minimumSubstringLength", Value::Number(0))]);
    assert_eq!(
        build_regex(&strs(&["aa"]), &cfg),
        Err(BuildError::ZeroMinimumSubstringLength)
    );
}

#[test]
fn surrogate_pairs_alone_has_no_effect() {
    let ex = strs(&["\u{1F600}", "b"]);
    let with = build_regex(&ex, &obj(vec![("surrogatePairs", Value::Bool(true))])).unwrap();
    let without = build_regex(&ex, &obj(vec![])).unwrap();
    assert_eq!(with, without);
}

#[test]
fn surrogate_pairs_with_escaping() {
    let ex = strs(&["\u{1F600}"]);
    let plain = obj(vec![("escapedNonASCIIChars", Value::Bool(true))]);
    let pairs = obj(vec![
        ("escapedNonASCIIChars", Value::Bool(true)),
        ("surrogatePairs", Value::Bool(true)),
    ]);
    assert_eq!(build_regex(&ex, &plain).unwrap(), "^\\u{1f600}$");
    assert_eq!(build_regex(&ex, &pairs).unwrap(), "^\\u{d83d}\\u{de00}$");
}

#[test]
fn unknown_tokens_are_ignored() {
    let ex = strs(&["a1", "b22"]);
    let bogus = obj(vec![("conversionOf", Value::Array(strs(&["bogus"])))]);
    assert_eq!(
        build_regex(&ex, &bogus).unwrap(),
        build_regex(&ex, &obj(vec![])).unwrap()
    );
}

#[test]
fn digit_conversion_applies() {
    let ex = strs(&["a1", "b22"]);
    let cfg = obj(vec![("conversionOf", Value::Array(strs(&["digit"])))]);
    let p = build_regex(&ex, &cfg).unwrap();
    assert!(p.contains("\\d"));
    assert!(matches_whole(&p, "a1"));
    assert!(matches_whole(&p, "b22"));
}

#[test]
fn missing_field_equals_default() {
    let ex = strs(&["abab", "cdcd"]);
    let base = build_regex(&ex, &obj(vec![])).unwrap();
    let defaults = obj(vec![
        ("conversionOf", Value::Array(vec![])),
        ("syntaxHighlighting", Value::Bool(false)),
        ("minimumRepetitions", Value::Number(1)),
        ("escapedNonASCIIChars", Value::Bool(false)),
        ("surrogatePairs", Value::Bool(false)),
        ("minimumSubstringLength", Value::Number(1)),
    ]);
    assert_eq!(build_regex(&ex, &defaults).unwrap(), base);
    assert_eq!(build_regex(&ex, &no_config()).unwrap(), base);
    assert_eq!(build_regex(&ex, &Value::Null).unwrap(), base);
}

#[test]
fn non_boolean_flag_is_unset() {
    let ex = strs(&["\u{e9}"]);
    let cfg = obj(vec![("escapedNonASCIIChars", s("true"))]);
    assert_eq!(
        build_regex(&ex, &cfg).unwrap(),
        build_regex(&ex, &obj(vec![])).unwrap()
    );
    let on = obj(vec![("escapedNonASCIIChars", Value::Bool(true))]);
    assert_eq!(build_regex(&ex, &on).unwrap(), "^\\u{e9}$");
}

#[test]
fn repetition_with_minimums() {
    let ex = strs(&["aaaa"]);
    let rep = obj(vec![("conversionOf", Value::Array(strs(&["repetition"])))]);
    assert_eq!(build_regex(&ex, &rep).unwrap(), "^a{4}$");
    let high = obj(vec![
        ("conversionOf", Value::Array(strs(&["repetition"]))),
        ("minimumRepetitions", Value::Number(5)),
    ]);
    assert_eq!(build_regex(&ex, &high).unwrap(), "^aaaa$");
}

#[test]
fn decode_is_per_field() {
    let cfg = obj(vec![
        ("conversionOf", Value::Array(vec![s("word"), Value::Number(3), s("word"), s("digit"), s("zzz")])),
        ("syntaxHighlighting", Value::Number(1)),
        ("minimumRepetitions", Value::Number(7)),
        ("escapedNonASCIIChars", Value::Bool(true)),
        ("surrogatePairs", s("yes")),
        ("minimumSubstringLength", Value::Bool(true)),
    ]);
    let o = decode_options(&cfg);
    assert_eq!(o.conversion_of, Some(vec![Feature::Word, Feature::Digit]));
    assert_eq!(o.syntax_highlighting, None);
    assert_eq!(o.minimum_repetitions, Some(7));
    assert_eq!(o.escaped_non_ascii_chars, Some(true));
    assert_eq!(o.surrogate_pairs, None);
    assert_eq!(o.minimum_substring_length, None);
}

#[test]
fn non_object_config_sets_nothing() {
    let o = decode_options(&s("conversionOf"));
    assert_eq!(o.conversion_of, None);
    assert_eq!(o.minimum_repetitions, None);
    let n = decode_options(&Value::Null);
    assert_eq!(n.syntax_highlighting, None);
}

#[test]
fn all_tokens_map() {
    let toks = strs(&[
        "digit", "noDigit", "space", "noSpace", "word", "noWord", "repetition",
        "caseInsensitivity", "capturingGroup", "Digit",
    ]);
    assert_eq!(
        map_features(&toks),
        vec![
            Feature::Digit, Feature::NonDigit, Feature::Space, Feature::NonSpace, Feature::Word,
            Feature::NonWord, Feature::Repetition, Feature::CaseInsensitivity,
            Feature::CapturingGroup,
        ]
    );
    assert_eq!(feature_from_token(&"noWord".to_string()), Some(Feature::NonWord));
    assert_eq!(feature_from_token(&"bogus".to_string()), None);
}

#[test]
fn counts_saturate() {
    assert_eq!(to_count(-5), 0);
    assert_eq!(to_count(0), 0);
    assert_eq!(to_count(42), 42);
    assert_eq!(to_count(4294967295), u32::MAX);
    assert_eq!(to_count(i64::MAX), u32::MAX);
}

#[test]
fn first_key_wins() {
    let entries = vec![
        ("a".to_string(), Value::Number(1)),
        ("b".to_string(), Value::Number(2)),
        ("a".to_string(), Value::Number(3)),
    ];
    assert_eq!(find_key(&entries, &"a".to_string()), Some(0));
    assert_eq!(find_key(&entries, &"b".to_string()), Some(1));
    assert_eq!(find_key(&entries, &"c".to_string()), None);
    assert_eq!(key(Field::EscapedNonAsciiChars), "escapedNonASCIIChars");
}

#[test]
fn case_insensitive_engine() {
    let cases = vec!["ABC".to_string(), "abc".to_string()];
    let mut e = Engine::new(&cases);
    e.enable(Feature::CaseInsensitivity);
    assert_eq!(e.build(), "(?i)^abc$");
}

#[test]
fn configure_applies_options() {
    let cases = vec!["a".to_string(), "b".to_string()];
    let mut e = Engine::new(&cases);
    let o = decode_options(&obj(vec![("conversionOf", Value::Array(strs(&["word"])))]));
    configure(&mut e, &o);
    assert_eq!(e.build(), "^\\w$");
}

#[test]
fn syntax_highlighting_changes_output() {
    let ex = strs(&["a1", "a2"]);
    let on = obj(vec![("syntaxHighlighting", Value::Bool(true))]);
    let plain = build_regex(&ex, &obj(vec![])).unwrap();
    assert_ne!(build_regex(&ex, &on).unwrap(), plain);
}

#[test]
fn minimum_substring_length_blocks_short_repeats() {
    let ex = strs(&["abcabc"]);
    let rep = obj(vec![("conversionOf", Value::Array(strs(&["repetition"])))]);
    assert_eq!(build_regex(&ex, &rep).unwrap(), "^(?:abc){2}$");
    let long = obj(vec![
        ("conversionOf", Value::Array(strs(&["repetition"]))),
        ("minimumSubstringLength", Value::Number(4)),
    ]);
    assert_eq!(build_regex(&ex, &long).unwrap(), "^abcabc$");
}

#[test]
fn engine_methods_in_order() {
    let cases = vec!["\u{e9}1".to_string(), "\u{e9}2".to_string()];
    let mut e = Engine::new(&cases);
    e.enable_all(&vec![Feature::Digit, Feature::Digit]);
    e.escape_non_ascii(false);
    e.set_minimum_repetitions(2);
    e.set_minimum_substring_length(2);
    assert_eq!(e.build(), "^\\u{e9}\\d$");
}

#[test]
fn null_key_is_absent() {
    let ex = strs(&["a1", "a2"]);
    let cfg = obj(vec![
        ("conversionOf", Value::Null),
        ("minimumRepetitions", Value::Null),
        ("syntaxHighlighting", Value::Null),
    ]);
    assert_eq!(build_regex(&ex, &cfg).unwrap(), build_regex(&ex, &obj(vec![])).unwrap());
}

#[test]
fn equivalent_configs_agree() {
    let one = obj(vec![
        ("minimumRepetitions", Value::Number(2)),
        ("conversionOf", Value::Array(strs(&["digit", "repetition"]))),
        ("extra", s("ignored")),
    ]);
    let other = obj(vec![
        ("conversionOf", Value::Array(strs(&["digit", "repetition", "digit"]))),
        ("minimumRepetitions", Value::Number(2)),
    ]);
    let a = decode_options(&one);
    let b = decode_options(&other);
    assert_eq!(a.conversion_of, b.conversion_of);
    assert_eq!(a.minimum_repetitions, b.minimum_repetitions);
    assert_eq!(a.syntax_highlighting, b.syntax_highlighting);
    assert_eq!(a.escaped_non_ascii_chars, b.escaped_non_ascii_chars);
    assert_eq!(a.surrogate_pairs, b.surrogate_pairs);
    assert_eq!(a.minimum_substring_length, b.minimum_substring_length);
    let ex = strs(&["a1", "a22"]);
    assert_eq!(build_regex(&ex, &one).unwrap(), build_regex(&ex, &other).unwrap());
}

#[test]
fn prepare_fails_like_build() {
    let bad = vec![Value::Number(1), s("y")];
    assert!(matches!(prepare(&bad, &no_config()), Err(BuildError::TypeMismatch)));
    assert!(matches!(prepare(&vec![], &no_config()), Err(BuildError::NoExamples)));
    let zero = obj(vec![("minimumSubstringLength", Value::Number(-1))]);
    assert!(matches!(
        prepare(&strs(&["a"]), &zero),
        Err(BuildError::ZeroMinimumSubstringLength)
    ));
}

#[test]
fn prepare_then_build() {
    let cfg = obj(vec![("conversionOf", Value::Array(strs(&["word"])))]);
    let engine = match prepare(&strs(&["a", "b", "a"]), &cfg) {
        Ok(e) => e,
        Err(_) => panic!("prepare failed"),
    };
    assert_eq!(engine.build(), "^\\w$");
}

#[test]
fn unknown_token_inside_list_is_ignored() {
    let ex = strs(&["a1 b", "c22 d"]);
    let mixed = obj(vec![("conversionOf", Value::Array(strs(&["digit", "bogus", "space"])))]);
    let clean = obj(vec![("conversionOf", Value::Array(strs(&["digit", "space"])))]);
    assert_eq!(build_regex(&ex, &mixed).unwrap(), build_regex(&ex, &clean).unwrap());
    assert_eq!(map_features(&strs(&["digit", "bogus", "space"])), vec![Feature::Digit, Feature::Space]);
}

#[test]
fn default_field_in_front_changes_nothing() {
    let ex = strs(&["ab", "cd"]);
    let base = obj(vec![("syntaxHighlighting", Value::Bool(false)), ("extra", Value::Number(3))]);
    let front = obj(vec![
        ("minimumSubstringLength", Value::Number(1)),
        ("surrogatePairs", Value::Bool(true)),
        ("syntaxHighlighting", Value::Bool(false)),
        ("extra", Value::Number(3)),
    ]);
    assert_eq!(build_regex(&ex, &front).unwrap(), build_regex(&ex, &base).unwrap());
    let shadowed = obj(vec![("minimumRepetitions", s("x")), ("minimumRepetitions", Value::Number(0))]);
    assert_eq!(decode_options(&shadowed).minimum_repetitions, None);
}
