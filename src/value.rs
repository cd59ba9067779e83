use vstd::prelude::*;

verus! {

/// A value as it arrives from a script host, before any validation.
///
/// A host number is carried as its integer part, truncated toward zero and
/// saturated to the range of `i64` (a NaN is carried as 0).
pub enum Value {
    Undefined,
    Null,
    Bool(bool),
    Number(i64),
    Str(String),
    Array(Vec<Value>),
    Object(Vec<(String, Value)>),
}

/// The text of a string value.
pub open spec fn text_of(v: Value) -> Seq<char> {
    match v {
        Value::Str(s) => s@,
        _ => Seq::empty(),
    }
}

pub open spec fn is_str(v: Value) -> bool {
    v is Str
}

/// Every element is a string.
pub open spec fn all_strings(s: Seq<Value>) -> bool {
    forall|i: int| 0 <= i < s.len() ==> is_str(#[trigger] s[i])
}

/// The texts of a sequence of values.
pub open spec fn texts_of(s: Seq<Value>) -> Seq<Seq<char>> {
    s.map_values(|v: Value| text_of(v))
}

/// The views of a sequence of strings.
pub open spec fn views_of(s: Seq<String>) -> Seq<Seq<char>> {
    s.map_values(|t: String| t@)
}

/// A host number as an unsigned 32-bit count: negative values become 0 and
/// values above `u32::MAX` become `u32::MAX`.
pub open spec fn count_of(n: i64) -> u32 {
    if n < 0 {
        0
    } else if n > u32::MAX {
        u32::MAX
    } else {
        n as u32
    }
}

/// Converts a host number to an unsigned 32-bit count, saturating at both ends.
pub fn to_count(n: i64) -> (r: u32)
    ensures
        r == count_of(n),
{
    if n < 0 {
        0
    } else if n > u32::MAX as i64 {
        u32::MAX
    } else {
        n as u32
    }
}

/// The first entry of an object whose key is `key`.
pub open spec fn lookup(entries: Seq<(String, Value)>, key: Seq<char>) -> Option<Value>
    decreases entries.len(),
{
    if entries.len() == 0 {
        None
    } else if entries[0].0@ == key {
        Some(entries[0].1)
    } else {
        lookup(entries.drop_first(), key)
    }
}

/// The index of the first entry whose key is `key`.
pub fn find_key(entries: &Vec<(String, Value)>, key: &String) -> (r: Option<usize>)
    ensures
        match r {
            Some(i) => i < entries.len() && Some(entries@[i as int].1) == lookup(entries@, key@),
            None => lookup(entries@, key@) is None,
        },
{
    let mut i: usize = 0;
    assert(entries@.subrange(0, entries.len() as int) =~= entries@);
    while i < entries.len()
        invariant
            i <= entries.len(),
            lookup(entries@, key@) == lookup(entries@.subrange(i as int, entries.len() as int), key@),
        decreases entries.len() - i,
    {
        let ghost rest = entries@.subrange(i as int, entries.len() as int);
        assert(rest.drop_first() =~= entries@.subrange(i + 1, entries.len() as int));
        if entries[i].0 == *key {
            return Some(i);
        }
        i = i + 1;
    }
    None
}

} // verus!
