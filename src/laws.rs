use vstd::prelude::*;
use crate::adapter::{
    apply_options, conversion_step, escaping_step, highlighting_step, options_error, prepared,
    repetitions_step, substring_step,
};
use crate::dedup::lemma_dedup_idempotent;
use crate::engine::{Settings, enable_all_spec, initial_settings};
use crate::error::BuildError;
use crate::features::{features_of, named_features, token_feature};
use crate::options::{Field, OptionsModel, bool_field, count_field, features_field, decode_spec, field_value, key_of};
use crate::value::{Value, all_strings, is_str, lookup, texts_of};

verus! {

/// A value that sets a field to what the engine uses when the field is unset.
pub open spec fn is_default(f: Field, v: Value) -> bool {
    match f {
        Field::ConversionOf => v matches Value::Array(items) && features_of(items@).len() == 0,
        Field::SyntaxHighlighting => v == Value::Bool(false),
        Field::EscapedNonAsciiChars => v == Value::Bool(false),
        Field::SurrogatePairs => v == Value::Bool(false),
        Field::MinimumRepetitions => v == Value::Number(1),
        Field::MinimumSubstringLength => v == Value::Number(1),
    }
}

/// A field that takes a boolean.
pub open spec fn is_flag(f: Field) -> bool {
    f == Field::SyntaxHighlighting || f == Field::EscapedNonAsciiChars || f == Field::SurrogatePairs
}

/// An entry inserted at index `j` of an object is found under its key
/// unless an entry before `j` has that key; lookups of other keys are
/// unaffected.
pub proof fn lemma_lookup_insert(s: Seq<(String, Value)>, j: int, x: (String, Value), key: Seq<char>)
    requires
        0 <= j <= s.len(),
    ensures
        x.0@ != key ==> lookup(s.insert(j, x), key) == lookup(s, key),
        x.0@ == key ==> lookup(s.insert(j, x), key) == (if lookup(s.subrange(0, j), key) is Some {
            lookup(s, key)
        } else {
            Some(x.1)
        }),
    decreases s.len(),
{
    let t = s.insert(j, x);
    if j == 0 {
        assert(t[0] == x);
        assert(t.drop_first() =~= s);
        assert(s.subrange(0, 0) =~= Seq::<(String, Value)>::empty());
    } else {
        assert(t[0] == s[0]);
        assert(t.drop_first() =~= s.drop_first().insert(j - 1, x));
        assert(s.subrange(0, j)[0] == s[0]);
        assert(s.subrange(0, j).drop_first() =~= s.drop_first().subrange(0, j - 1));
        lemma_lookup_insert(s.drop_first(), j - 1, x, key);
    }
}

/// A key absent from an object is absent from each of its prefixes.
pub proof fn lemma_lookup_prefix(s: Seq<(String, Value)>, j: int, key: Seq<char>)
    requires
        0 <= j <= s.len(),
        lookup(s, key) is None,
    ensures
        lookup(s.subrange(0, j), key) is None,
    decreases s.len(),
{
    if j > 0 {
        assert(s.subrange(0, j)[0] == s[0]);
        assert(s.subrange(0, j).drop_first() =~= s.drop_first().subrange(0, j - 1));
        lemma_lookup_prefix(s.drop_first(), j - 1, key);
    }
}

/// The six keys are distinct.
pub proof fn lemma_keys_distinct(f: Field, g: Field)
    ensures
        key_of(f) == key_of(g) ==> f == g,
{
    reveal_strlit("conversionOf");
    reveal_strlit("syntaxHighlighting");
    reveal_strlit("minimumRepetitions");
    reveal_strlit("escapedNonASCIIChars");
    reveal_strlit("surrogatePairs");
    reveal_strlit("minimumSubstringLength");
    if key_of(f) == key_of(g) && f != g {
        assert(key_of(f).len() == key_of(g).len());
        assert(key_of(f)[0] == key_of(g)[0]);
    }
}

/// Inserting an entry under the key of `g` changes at most the field `g`,
/// and that one only where no earlier entry has its key.
pub proof fn lemma_field_after_insert(
    entries: Vec<(String, Value)>,
    longer: Vec<(String, Value)>,
    j: int,
    g: Field,
    k: String,
    v: Value,
    f: Field,
)
    requires
        0 <= j <= entries@.len(),
        k@ == key_of(g),
        longer@ == entries@.insert(j, (k, v)),
    ensures
        field_value(Value::Object(longer), f) == (if f == g && lookup(entries@.subrange(0, j), key_of(g)) is None {
            Some(v)
        } else {
            field_value(Value::Object(entries), f)
        }),
{
    lemma_lookup_insert(entries@, j, (k, v), key_of(f));
    lemma_keys_distinct(f, g);
}

/// Allowing features changes none of the settings outside the capability set.
pub proof fn lemma_enable_all_keeps(s: Settings, fs: Seq<crate::features::Feature>)
    ensures
        enable_all_spec(s, fs).syntax_highlighting == s.syntax_highlighting,
        enable_all_spec(s, fs).minimum_repetitions == s.minimum_repetitions,
        enable_all_spec(s, fs).escaped_non_ascii == s.escaped_non_ascii,
        enable_all_spec(s, fs).surrogate_pairs == s.surrogate_pairs,
        enable_all_spec(s, fs).minimum_substring_length == s.minimum_substring_length,
    decreases fs.len(),
{
    reveal(enable_all_spec);
    if fs.len() > 0 {
        lemma_enable_all_keeps(s, fs.drop_last());
    }
}

/// Repeated examples make no difference: a list hands the engine the same
/// examples and configuration, or fails alike, as the list with each repeat
/// removed, first occurrences kept in order.
pub proof fn lemma_duplicates_ignored(examples: Seq<Value>, deduped: Seq<Value>, config: Value)
    requires
        all_strings(examples),
        all_strings(deduped),
        texts_of(deduped) == crate::dedup::dedup(texts_of(examples)),
    ensures
        prepared(deduped, config) == prepared(examples, config),
{
    lemma_dedup_idempotent(texts_of(examples));
}

/// What reaches the engine depends on nothing but the texts of the examples,
/// whether they are all strings, and the options that the configuration
/// decodes to: host front-ends that hand over equivalent values set up
/// identical builders, or fail with the same error.
pub proof fn lemma_equivalent_inputs_agree(e1: Seq<Value>, e2: Seq<Value>, c1: Value, c2: Value)
    requires
        all_strings(e1) == all_strings(e2),
        texts_of(e1) == texts_of(e2),
        decode_spec(c1) == decode_spec(c2),
    ensures
        prepared(e1, c1) == prepared(e2, c2),
{
}

/// A non-string anywhere among the examples fails the call with
/// `TypeMismatch`, whatever the configuration.
pub proof fn lemma_non_string_fails(examples: Seq<Value>, i: int, config: Value)
    requires
        0 <= i < examples.len(),
        !is_str(examples[i]),
    ensures
        prepared(examples, config) == Err::<(Seq<Seq<char>>, Settings), BuildError>(BuildError::TypeMismatch),
{
}

/// The options after one field of them is set from a value.
pub open spec fn with_field(o: OptionsModel, f: Field, v: Value) -> OptionsModel {
    match f {
        Field::ConversionOf => OptionsModel { conversion_of: features_field(Some(v)), ..o },
        Field::SyntaxHighlighting => OptionsModel { syntax_highlighting: bool_field(Some(v)), ..o },
        Field::MinimumRepetitions => OptionsModel { minimum_repetitions: count_field(Some(v)), ..o },
        Field::EscapedNonAsciiChars => OptionsModel {
            escaped_non_ascii_chars: bool_field(Some(v)),
            ..o
        },
        Field::SurrogatePairs => OptionsModel { surrogate_pairs: bool_field(Some(v)), ..o },
        Field::MinimumSubstringLength => OptionsModel {
            minimum_substring_length: count_field(Some(v)),
            ..o
        },
    }
}

/// Inserting an entry under the key of a field sets that field from the
/// entry's value, and no other, unless an earlier entry has that key; then
/// it changes nothing. Where the key was absent the field is always set.
pub proof fn lemma_decode_after_insert(
    entries: Vec<(String, Value)>,
    longer: Vec<(String, Value)>,
    j: int,
    g: Field,
    k: String,
    v: Value,
)
    requires
        0 <= j <= entries@.len(),
        k@ == key_of(g),
        longer@ == entries@.insert(j, (k, v)),
    ensures
        decode_spec(Value::Object(longer)) == (if lookup(entries@.subrange(0, j), key_of(g)) is None {
            with_field(decode_spec(Value::Object(entries)), g, v)
        } else {
            decode_spec(Value::Object(entries))
        }),
        lookup(entries@, key_of(g)) is None ==> decode_spec(Value::Object(longer)) == with_field(
            decode_spec(Value::Object(entries)),
            g,
            v,
        ),
{
    lemma_field_after_insert(entries, longer, j, g, k, v, Field::ConversionOf);
    lemma_field_after_insert(entries, longer, j, g, k, v, Field::SyntaxHighlighting);
    lemma_field_after_insert(entries, longer, j, g, k, v, Field::MinimumRepetitions);
    lemma_field_after_insert(entries, longer, j, g, k, v, Field::EscapedNonAsciiChars);
    lemma_field_after_insert(entries, longer, j, g, k, v, Field::SurrogatePairs);
    lemma_field_after_insert(entries, longer, j, g, k, v, Field::MinimumSubstringLength);
    if lookup(entries@, key_of(g)) is None {
        lemma_lookup_prefix(entries@, j, key_of(g));
    }
}

/// Two configurations whose options are refused alike and configure the
/// engine alike set up the same builder.
proof fn lemma_same_outcome(examples: Seq<Value>, a: Value, b: Value)
    requires
        options_error(decode_spec(a)) == options_error(decode_spec(b)),
        apply_options(initial_settings(), decode_spec(a)) == apply_options(initial_settings(), decode_spec(b)),
    ensures
        prepared(examples, a) == prepared(examples, b),
{
}

/// A field of the options is unset.
pub open spec fn is_unset(o: OptionsModel, f: Field) -> bool {
    match f {
        Field::ConversionOf => o.conversion_of is None,
        Field::SyntaxHighlighting => o.syntax_highlighting is None,
        Field::MinimumRepetitions => o.minimum_repetitions is None,
        Field::EscapedNonAsciiChars => o.escaped_non_ascii_chars is None,
        Field::SurrogatePairs => o.surrogate_pairs is None,
        Field::MinimumSubstringLength => o.minimum_substring_length is None,
    }
}

/// Setting a field to the engine's default configures the engine as
/// leaving it unset does.
#[verifier::rlimit(60)]
proof fn lemma_default_options(o: OptionsModel, f: Field, v: Value)
    requires
        is_default(f, v),
        is_unset(o, f),
    ensures
        options_error(with_field(o, f, v)) == options_error(o),
        apply_options(initial_settings(), with_field(o, f, v)) == apply_options(initial_settings(), o),
{
    let s0 = initial_settings();
    let o2 = with_field(o, f, v);
    let s1 = conversion_step(s0, o.conversion_of);
    match o.conversion_of {
        Some(fs) => lemma_enable_all_keeps(s0, fs),
        None => {},
    }
    let s2 = highlighting_step(s1, o.syntax_highlighting);
    let s3 = repetitions_step(s2, o.minimum_repetitions);
    let s4 = escaping_step(s3, o.escaped_non_ascii_chars, o.surrogate_pairs);
    match f {
        Field::ConversionOf => {
            if let Value::Array(items) = v {
                assert(features_of(items@) =~= Seq::empty());
            }
            reveal(enable_all_spec);
            assert(conversion_step(s0, o2.conversion_of) == s1);
            assert(o2 == OptionsModel { conversion_of: o2.conversion_of, ..o });
        },
        Field::SyntaxHighlighting => {
            assert(highlighting_step(s1, o2.syntax_highlighting) == s2);
        },
        Field::MinimumRepetitions => {
            assert(repetitions_step(s2, o2.minimum_repetitions) == s3);
        },
        Field::EscapedNonAsciiChars => {
            assert(escaping_step(s3, o2.escaped_non_ascii_chars, o.surrogate_pairs) == s4);
        },
        Field::SurrogatePairs => {
            assert(escaping_step(s3, o.escaped_non_ascii_chars, o2.surrogate_pairs) == s4);
        },
        Field::MinimumSubstringLength => {
            assert(substring_step(s4, o2.minimum_substring_length) == substring_step(s4, None));
        },
    }
}

/// A configuration without a field sets up the same builder, or fails alike,
/// as the one with that field set to the engine's default, wherever among
/// the entries the field is put.
pub proof fn lemma_missing_field_is_default(
    examples: Seq<Value>,
    entries: Vec<(String, Value)>,
    longer: Vec<(String, Value)>,
    j: int,
    f: Field,
    k: String,
    v: Value,
)
    requires
        lookup(entries@, key_of(f)) is None,
        k@ == key_of(f),
        is_default(f, v),
        0 <= j <= entries@.len(),
        longer@ == entries@.insert(j, (k, v)),
    ensures
        prepared(examples, Value::Object(longer)) == prepared(examples, Value::Object(entries)),
{
    lemma_decode_after_insert(entries, longer, j, f, k, v);
    let oa = decode_spec(Value::Object(entries));
    assert(field_value(Value::Object(entries), f) is None);
    lemma_default_options(oa, f, v);
    lemma_same_outcome(examples, Value::Object(longer), Value::Object(entries));
}

/// A flag given something other than a boolean, at any position among the
/// entries, acts as if it were absent: the builder set up is the same.
pub proof fn lemma_non_boolean_flag_is_unset(
    examples: Seq<Value>,
    entries: Vec<(String, Value)>,
    longer: Vec<(String, Value)>,
    j: int,
    f: Field,
    k: String,
    v: Value,
)
    requires
        is_flag(f),
        !(v is Bool),
        lookup(entries@, key_of(f)) is None,
        k@ == key_of(f),
        0 <= j <= entries@.len(),
        longer@ == entries@.insert(j, (k, v)),
    ensures
        prepared(examples, Value::Object(longer)) == prepared(examples, Value::Object(entries)),
{
    lemma_decode_after_insert(entries, longer, j, f, k, v);
    assert(decode_spec(Value::Object(longer)) == decode_spec(Value::Object(entries)));
}

/// Without escaping turned on, the surrogate pair choice leaves the
/// engine's configuration as it is.
proof fn lemma_surrogate_options(o: OptionsModel, x: Option<bool>)
    requires
        o.escaped_non_ascii_chars != Some(true),
    ensures
        options_error(OptionsModel { surrogate_pairs: x, ..o }) == options_error(o),
        apply_options(initial_settings(), OptionsModel { surrogate_pairs: x, ..o })
            == apply_options(initial_settings(), o),
{
}

/// Where non-ASCII escaping is not turned on, the surrogate pair choice has
/// no effect: adding it to a configuration, at any position, changes nothing
/// that reaches the engine.
pub proof fn lemma_surrogate_pairs_inert(
    examples: Seq<Value>,
    entries: Vec<(String, Value)>,
    longer: Vec<(String, Value)>,
    j: int,
    k: String,
    v: Value,
)
    requires
        bool_field(field_value(Value::Object(entries), Field::EscapedNonAsciiChars)) != Some(true),
        k@ == key_of(Field::SurrogatePairs),
        0 <= j <= entries@.len(),
        longer@ == entries@.insert(j, (k, v)),
    ensures
        prepared(examples, Value::Object(longer)) == prepared(examples, Value::Object(entries)),
{
    lemma_decode_after_insert(entries, longer, j, Field::SurrogatePairs, k, v);
    lemma_surrogate_options(decode_spec(Value::Object(entries)), bool_field(Some(v)));
    lemma_same_outcome(examples, Value::Object(longer), Value::Object(entries));
}

/// Tokens that name no feature name nothing, however many there are.
pub proof fn lemma_unknown_tokens_name_nothing(tokens: Seq<Value>)
    requires
        forall|i: int| 0 <= i < tokens.len() ==> (#[trigger] token_feature(tokens[i])) is None,
    ensures
        named_features(tokens) == Seq::<crate::features::Feature>::empty(),
    decreases tokens.len(),
{
    if tokens.len() > 0 {
        let p = tokens.drop_last();
        assert forall|i: int| 0 <= i < p.len() implies (#[trigger] token_feature(p[i])) is None by {
            assert(p[i] == tokens[i]);
        }
        lemma_unknown_tokens_name_nothing(p);
        assert(token_feature(tokens[tokens.len() - 1]) is None);
    }
}

/// A capability list made only of tokens outside the fixed set of features
/// sets up the same builder as no capability list, wherever it is put.
pub proof fn lemma_unknown_tokens_ignored(
    examples: Seq<Value>,
    entries: Vec<(String, Value)>,
    longer: Vec<(String, Value)>,
    j: int,
    k: String,
    tokens: Vec<Value>,
)
    requires
        forall|i: int| 0 <= i < tokens@.len() ==> (#[trigger] token_feature(tokens@[i])) is None,
        lookup(entries@, key_of(Field::ConversionOf)) is None,
        k@ == key_of(Field::ConversionOf),
        0 <= j <= entries@.len(),
        longer@ == entries@.insert(j, (k, Value::Array(tokens))),
    ensures
        prepared(examples, Value::Object(longer)) == prepared(examples, Value::Object(entries)),
{
    lemma_unknown_tokens_name_nothing(tokens@);
    lemma_missing_field_is_default(examples, entries, longer, j, Field::ConversionOf, k, Value::Array(tokens));
}

/// The features named by two lists one after the other are those of the
/// first followed by those of the second.
pub proof fn lemma_named_features_concat(a: Seq<Value>, b: Seq<Value>)
    ensures
        named_features(a + b) == named_features(a) + named_features(b),
    decreases b.len(),
{
    if b.len() == 0 {
        assert(a + b =~= a);
        assert(named_features(a) + named_features(b) =~= named_features(a));
    } else {
        lemma_named_features_concat(a, b.drop_last());
        assert((a + b).drop_last() =~= a + b.drop_last());
        assert((a + b).last() == b.last());
        match token_feature(b.last()) {
            Some(f) => {
                assert(named_features(a) + named_features(b.drop_last()).push(f) =~= (named_features(a)
                    + named_features(b.drop_last())).push(f));
            },
            None => {},
        }
    }
}

/// A token that names no feature, put anywhere in a list, leaves the
/// capability set as it was.
pub proof fn lemma_unknown_token_inert(tokens: Seq<Value>, i: int, u: Value)
    requires
        0 <= i <= tokens.len(),
        token_feature(u) is None,
    ensures
        features_of(tokens.insert(i, u)) == features_of(tokens),
{
    let pre = tokens.subrange(0, i);
    let post = tokens.subrange(i, tokens.len() as int);
    assert(tokens.insert(i, u) =~= (pre + seq![u]) + post);
    assert(tokens =~= pre + post);
    lemma_named_features_concat(pre + seq![u], post);
    lemma_named_features_concat(pre, seq![u]);
    lemma_named_features_concat(pre, post);
    assert(seq![u].drop_last() =~= Seq::<Value>::empty());
    assert(named_features(Seq::<Value>::empty()) =~= Seq::empty());
    assert(seq![u].last() == u);
    assert(named_features(seq![u]) =~= Seq::empty());
    assert(named_features(pre) + named_features(seq![u]) =~= named_features(pre));
}

/// Adding a token outside the fixed set of features anywhere in the
/// capability list of a configuration changes nothing that reaches the
/// engine, wherever among the entries that list stands.
pub proof fn lemma_unknown_token_ignored(
    examples: Seq<Value>,
    entries: Vec<(String, Value)>,
    j: int,
    k: String,
    tokens: Vec<Value>,
    more: Vec<Value>,
    with_tokens: Vec<(String, Value)>,
    with_more: Vec<(String, Value)>,
    i: int,
    u: Value,
)
    requires
        0 <= i <= tokens@.len(),
        token_feature(u) is None,
        more@ == tokens@.insert(i, u),
        k@ == key_of(Field::ConversionOf),
        0 <= j <= entries@.len(),
        with_tokens@ == entries@.insert(j, (k, Value::Array(tokens))),
        with_more@ == entries@.insert(j, (k, Value::Array(more))),
    ensures
        prepared(examples, Value::Object(with_more)) == prepared(examples, Value::Object(with_tokens)),
{
    lemma_unknown_token_inert(tokens@, i, u);
    lemma_decode_after_insert(entries, with_tokens, j, Field::ConversionOf, k, Value::Array(tokens));
    lemma_decode_after_insert(entries, with_more, j, Field::ConversionOf, k, Value::Array(more));
    lemma_equivalent_inputs_agree(examples, examples, Value::Object(with_more), Value::Object(with_tokens));
}

} // verus!
