use vstd::prelude::*;
use crate::dedup::{dedup, lemma_dedup_push};
use crate::error::BuildError;
use crate::value::{Value, all_strings, is_str, text_of, texts_of, views_of};

verus! {

/// The example set that a list of values gives: the texts in order, each
/// once, at the place of its first occurrence.
pub open spec fn example_set(values: Seq<Value>) -> Seq<Seq<char>> {
    dedup(texts_of(values))
}

fn contains_text(v: &Vec<String>, s: &String) -> (r: bool)
    ensures
        r == views_of(v@).contains(s@),
{
    let mut i: usize = 0;
    while i < v.len()
        invariant
            i <= v.len(),
            forall|k: int| 0 <= k < i ==> v@[k]@ != s@,
        decreases v.len() - i,
    {
        if v[i] == *s {
            assert(views_of(v@)[i as int] == s@);
            return true;
        }
        i = i + 1;
    }
    assert(!views_of(v@).contains(s@)) by {
        if views_of(v@).contains(s@) {
            let k = choose|k: int| 0 <= k < views_of(v@).len() && views_of(v@)[k] == s@;
            assert(v@[k]@ == s@);
        }
    }
    false
}

/// Turns a list of values into the example set. Fails with `TypeMismatch`
/// exactly when some value is not a string.
pub fn normalize_examples(values: &Vec<Value>) -> (r: Result<Vec<String>, BuildError>)
    ensures
        r is Ok <==> all_strings(values@),
        r matches Ok(v) ==> views_of(v@) == example_set(values@),
        r matches Err(e) ==> e == BuildError::TypeMismatch,
{
    let mut out: Vec<String> = Vec::new();
    let mut i: usize = 0;
    while i < values.len()
        invariant
            i <= values.len(),
            all_strings(values@.subrange(0, i as int)),
            views_of(out@) == example_set(values@.subrange(0, i as int)),
        decreases values.len() - i,
    {
        let ghost before = values@.subrange(0, i as int);
        let ghost after = values@.subrange(0, i + 1);
        assert(texts_of(after) =~= texts_of(before).push(text_of(values@[i as int])));
        match &values[i] {
            Value::Str(s) => {
                proof {
                    lemma_dedup_push(texts_of(before), s@);
                }
                if !contains_text(&out, s) {
                    out.push(s.clone());
                    assert(views_of(out@) =~= views_of(out@.drop_last()).push(s@));
                }
                assert forall|k: int| 0 <= k < after.len() implies is_str(#[trigger] after[k]) by {
                    if k < i {
                        assert(after[k] == before[k]);
                    }
                }
            },
            _ => {
                assert(!is_str(values@[i as int]));
                return Err(BuildError::TypeMismatch);
            },
        }
        i = i + 1;
    }
    assert(values@.subrange(0, values.len() as int) =~= values@);
    Ok(out)
}

} // verus!
