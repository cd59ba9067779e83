use vstd::prelude::*;
use crate::dedup::{dedup, lemma_dedup_push};
use crate::value::Value;

verus! {

/// A category of regex constructs that the engine may use when it generalizes.
#[derive(PartialEq, Eq, Structural, Clone, Copy, Debug)]
pub enum Feature {
    Digit,
    NonDigit,
    Space,
    NonSpace,
    Word,
    NonWord,
    Repetition,
    CaseInsensitivity,
    CapturingGroup,
}

/// The feature that a token names, if it names one.
pub open spec fn feature_named(t: Seq<char>) -> Option<Feature> {
    if t == "digit"@ {
        Some(Feature::Digit)
    } else if t == "noDigit"@ {
        Some(Feature::NonDigit)
    } else if t == "space"@ {
        Some(Feature::Space)
    } else if t == "noSpace"@ {
        Some(Feature::NonSpace)
    } else if t == "word"@ {
        Some(Feature::Word)
    } else if t == "noWord"@ {
        Some(Feature::NonWord)
    } else if t == "repetition"@ {
        Some(Feature::Repetition)
    } else if t == "caseInsensitivity"@ {
        Some(Feature::CaseInsensitivity)
    } else if t == "capturingGroup"@ {
        Some(Feature::CapturingGroup)
    } else {
        None
    }
}

/// The feature that a token value names: a value that is not a string names none.
pub open spec fn token_feature(v: Value) -> Option<Feature> {
    match v {
        Value::Str(t) => feature_named(t@),
        _ => None,
    }
}

/// The features named by the tokens, in the order of the tokens.
pub open spec fn named_features(tokens: Seq<Value>) -> Seq<Feature>
    decreases tokens.len(),
{
    if tokens.len() == 0 {
        Seq::empty()
    } else {
        let rest = named_features(tokens.drop_last());
        match token_feature(tokens.last()) {
            Some(f) => rest.push(f),
            None => rest,
        }
    }
}

/// The capability set that a list of tokens asks for: the named features,
/// each once, in the order of their first mention. Tokens that are not
/// strings or name no feature are left out.
pub open spec fn features_of(tokens: Seq<Value>) -> Seq<Feature> {
    dedup(named_features(tokens))
}

fn is_token(t: &String, name: &str) -> (r: bool)
    ensures
        r == (t@ == name@),
{
    *t == name.to_owned()
}

/// The feature that a token names, if it names one.
pub fn feature_from_token(t: &String) -> (r: Option<Feature>)
    ensures
        r == feature_named(t@),
{
    if is_token(t, "digit") {
        Some(Feature::Digit)
    } else if is_token(t, "noDigit") {
        Some(Feature::NonDigit)
    } else if is_token(t, "space") {
        Some(Feature::Space)
    } else if is_token(t, "noSpace") {
        Some(Feature::NonSpace)
    } else if is_token(t, "word") {
        Some(Feature::Word)
    } else if is_token(t, "noWord") {
        Some(Feature::NonWord)
    } else if is_token(t, "repetition") {
        Some(Feature::Repetition)
    } else if is_token(t, "caseInsensitivity") {
        Some(Feature::CaseInsensitivity)
    } else if is_token(t, "capturingGroup") {
        Some(Feature::CapturingGroup)
    } else {
        None
    }
}

fn contains_feature(fs: &Vec<Feature>, f: Feature) -> (r: bool)
    ensures
        r == fs@.contains(f),
{
    let mut i: usize = 0;
    while i < fs.len()
        invariant
            i <= fs.len(),
            forall|k: int| 0 <= k < i ==> fs@[k] != f,
        decreases fs.len() - i,
    {
        if fs[i] == f {
            return true;
        }
        i = i + 1;
    }
    false
}

/// Maps a list of tokens to the capability set it asks for.
pub fn map_features(tokens: &Vec<Value>) -> (r: Vec<Feature>)
    ensures
        r@ == features_of(tokens@),
{
    let mut r: Vec<Feature> = Vec::new();
    let mut i: usize = 0;
    while i < tokens.len()
        invariant
            i <= tokens.len(),
            r@ == features_of(tokens@.subrange(0, i as int)),
        decreases tokens.len() - i,
    {
        let ghost before = tokens@.subrange(0, i as int);
        assert(tokens@.subrange(0, i + 1).drop_last() =~= before);
        assert(tokens@.subrange(0, i + 1).last() == tokens@[i as int]);
        let found = match &tokens[i] {
            Value::Str(t) => feature_from_token(t),
            _ => None,
        };
        match found {
            Some(f) => {
                proof {
                    lemma_dedup_push(named_features(before), f);
                }
                if !contains_feature(&r, f) {
                    r.push(f);
                }
            },
            None => {},
        }
        i = i + 1;
    }
    assert(tokens@.subrange(0, tokens.len() as int) =~= tokens@);
    r
}

} // verus!
