use vstd::prelude::*;
use crate::features::{Feature, features_of, map_features};
use crate::value::{Value, count_of, find_key, lookup, to_count};

verus! {

/// The six tuning options, each unset unless it was given in the right shape.
pub struct Options {
    pub conversion_of: Option<Vec<Feature>>,
    pub syntax_highlighting: Option<bool>,
    pub minimum_repetitions: Option<u32>,
    pub escaped_non_ascii_chars: Option<bool>,
    pub surrogate_pairs: Option<bool>,
    pub minimum_substring_length: Option<u32>,
}

/// What an `Options` holds, with the capability set as a sequence.
pub struct OptionsModel {
    pub conversion_of: Option<Seq<Feature>>,
    pub syntax_highlighting: Option<bool>,
    pub minimum_repetitions: Option<u32>,
    pub escaped_non_ascii_chars: Option<bool>,
    pub surrogate_pairs: Option<bool>,
    pub minimum_substring_length: Option<u32>,
}

impl View for Options {
    type V = OptionsModel;

    open spec fn view(&self) -> OptionsModel {
        OptionsModel {
            conversion_of: match self.conversion_of {
                Some(v) => Some(v@),
                None => None,
            },
            syntax_highlighting: self.syntax_highlighting,
            minimum_repetitions: self.minimum_repetitions,
            escaped_non_ascii_chars: self.escaped_non_ascii_chars,
            surrogate_pairs: self.surrogate_pairs,
            minimum_substring_length: self.minimum_substring_length,
        }
    }
}

/// One of the six keys of a configuration object.
#[derive(PartialEq, Eq, Structural, Clone, Copy, Debug)]
pub enum Field {
    ConversionOf,
    SyntaxHighlighting,
    MinimumRepetitions,
    EscapedNonAsciiChars,
    SurrogatePairs,
    MinimumSubstringLength,
}

/// The key under which a field is looked up.
pub open spec fn key_of(f: Field) -> Seq<char> {
    match f {
        Field::ConversionOf => "conversionOf"@,
        Field::SyntaxHighlighting => "syntaxHighlighting"@,
        Field::MinimumRepetitions => "minimumRepetitions"@,
        Field::EscapedNonAsciiChars => "escapedNonASCIIChars"@,
        Field::SurrogatePairs => "surrogatePairs"@,
        Field::MinimumSubstringLength => "minimumSubstringLength"@,
    }
}

/// The key under which a field is looked up.
pub fn key(f: Field) -> (r: String)
    ensures
        r@ == key_of(f),
{
    match f {
        Field::ConversionOf => "conversionOf".to_owned(),
        Field::SyntaxHighlighting => "syntaxHighlighting".to_owned(),
        Field::MinimumRepetitions => "minimumRepetitions".to_owned(),
        Field::EscapedNonAsciiChars => "escapedNonASCIIChars".to_owned(),
        Field::SurrogatePairs => "surrogatePairs".to_owned(),
        Field::MinimumSubstringLength => "minimumSubstringLength".to_owned(),
    }
}

/// The value stored under a field of a configuration; anything but an
/// object holds no field.
pub open spec fn field_value(config: Value, f: Field) -> Option<Value> {
    match config {
        Value::Object(entries) => lookup(entries@, key_of(f)),
        _ => None,
    }
}

/// A boolean field: set only when the value is a boolean.
pub open spec fn bool_field(v: Option<Value>) -> Option<bool> {
    match v {
        Some(Value::Bool(b)) => Some(b),
        _ => None,
    }
}

/// A count field: set only when the value is a number, which becomes a count.
pub open spec fn count_field(v: Option<Value>) -> Option<u32> {
    match v {
        Some(Value::Number(n)) => Some(count_of(n)),
        _ => None,
    }
}

/// The feature list field: set only when the value is an array.
pub open spec fn features_field(v: Option<Value>) -> Option<Seq<Feature>> {
    match v {
        Some(Value::Array(items)) => Some(features_of(items@)),
        _ => None,
    }
}

/// The options that a configuration value gives, each field on its own.
pub open spec fn decode_spec(config: Value) -> OptionsModel {
    OptionsModel {
        conversion_of: features_field(field_value(config, Field::ConversionOf)),
        syntax_highlighting: bool_field(field_value(config, Field::SyntaxHighlighting)),
        minimum_repetitions: count_field(field_value(config, Field::MinimumRepetitions)),
        escaped_non_ascii_chars: bool_field(field_value(config, Field::EscapedNonAsciiChars)),
        surrogate_pairs: bool_field(field_value(config, Field::SurrogatePairs)),
        minimum_substring_length: count_field(field_value(config, Field::MinimumSubstringLength)),
    }
}

fn entry<'a>(entries: &'a Vec<(String, Value)>, f: Field) -> (r: Option<&'a Value>)
    ensures
        r matches Some(v) ==> lookup(entries@, key_of(f)) == Some(*v),
        r is None ==> lookup(entries@, key_of(f)) is None,
{
    let k = key(f);
    match find_key(entries, &k) {
        Some(i) => Some(&entries[i].1),
        None => None,
    }
}

fn decode_bool(v: Option<&Value>) -> (r: Option<bool>)
    ensures
        match v {
            Some(x) => r == bool_field(Some(*x)),
            None => r is None,
        },
{
    match v {
        Some(Value::Bool(b)) => Some(*b),
        _ => None,
    }
}

fn decode_count(v: Option<&Value>) -> (r: Option<u32>)
    ensures
        match v {
            Some(x) => r == count_field(Some(*x)),
            None => r is None,
        },
{
    match v {
        Some(Value::Number(n)) => Some(to_count(*n)),
        _ => None,
    }
}

fn decode_features(v: Option<&Value>) -> (r: Option<Vec<Feature>>)
    ensures
        match v {
            Some(x) => match r {
                Some(fs) => features_field(Some(*x)) == Some(fs@),
                None => features_field(Some(*x)) is None,
            },
            None => r is None,
        },
{
    match v {
        Some(Value::Array(items)) => Some(map_features(items)),
        _ => None,
    }
}

/// Decodes a configuration value. A value that is not an object sets
/// nothing; a field that is absent or of the wrong shape stays unset, and
/// has no effect on the others.
pub fn decode_options(config: &Value) -> (o: Options)
    ensures
        o@ == decode_spec(*config),
{
    match config {
        Value::Object(entries) => Options {
            conversion_of: decode_features(entry(entries, Field::ConversionOf)),
            syntax_highlighting: decode_bool(entry(entries, Field::SyntaxHighlighting)),
            minimum_repetitions: decode_count(entry(entries, Field::MinimumRepetitions)),
            escaped_non_ascii_chars: decode_bool(entry(entries, Field::EscapedNonAsciiChars)),
            surrogate_pairs: decode_bool(entry(entries, Field::SurrogatePairs)),
            minimum_substring_length: decode_count(entry(entries, Field::MinimumSubstringLength)),
        },
        _ => Options {
            conversion_of: None,
            syntax_highlighting: None,
            minimum_repetitions: None,
            escaped_non_ascii_chars: None,
            surrogate_pairs: None,
            minimum_substring_length: None,
        },
    }
}

} // verus!
