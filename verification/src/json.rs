//! A JSON-like value, as the transport layer hands it over.
//!
//! The wire format itself (framing, text, number syntax) belongs to the
//! transport collaborator; what reaches this library is an already
//! decoded tree of plain values.  Numbers are carried in micro-units
//! (`crate::fixed::SCALE` per whole unit), so a wire value of `10.5`
//! arrives as `Num(10_500_000)` and an integer field holds a multiple
//! of `SCALE`.

use vstd::prelude::*;

verus! {

/// One decoded JSON-like value.
pub enum JsonValue {
    Null,
    Bool(bool),
    /// A number, in micro-units.
    Num(i64),
    Str(String),
    Arr(Vec<JsonValue>),
    /// An object: its fields in order of appearance.
    Obj(Vec<(String, JsonValue)>),
}

/// The value under `key` in an object's field list, the first
/// occurrence winning.
pub open spec fn spec_lookup(entries: Seq<(String, JsonValue)>, key: Seq<char>) -> Option<
    JsonValue,
>
    decreases entries.len(),
{
    if entries.len() == 0 {
        None
    } else if entries[0].0@ == key {
        Some(entries[0].1)
    } else {
        spec_lookup(entries.drop_first(), key)
    }
}

/// If the first `i` fields miss the key and field `i` carries it, the
/// lookup yields field `i`'s value.
pub proof fn lemma_lookup_found(entries: Seq<(String, JsonValue)>, key: Seq<char>, i: int)
    requires
        0 <= i < entries.len(),
        forall|j: int| 0 <= j < i ==> (#[trigger] entries[j].0)@ != key,
        entries[i].0@ == key,
    ensures
        spec_lookup(entries, key) == Some(entries[i].1),
    decreases i,
{
    if i > 0 {
        lemma_lookup_found(entries.drop_first(), key, i - 1);
    }
}

/// If no field carries the key, the lookup yields nothing.
pub proof fn lemma_lookup_absent(entries: Seq<(String, JsonValue)>, key: Seq<char>)
    requires
        forall|j: int| 0 <= j < entries.len() ==> (#[trigger] entries[j].0)@ != key,
    ensures
        spec_lookup(entries, key) is None,
    decreases entries.len(),
{
    if entries.len() > 0 {
        lemma_lookup_absent(entries.drop_first(), key);
    }
}

/// Finds the first field named `key` in an object's field list.
pub fn lookup<'a>(entries: &'a Vec<(String, JsonValue)>, key: &String) -> (r: Option<
    &'a JsonValue,
>)
    ensures
        r is Some <==> spec_lookup(entries@, key@) is Some,
        r matches Some(v) ==> spec_lookup(entries@, key@) == Some(*v),
{
    let mut i: usize = 0;
    while i < entries.len()
        invariant
            i <= entries@.len(),
            forall|j: int| 0 <= j < i as int ==> (#[trigger] entries@[j].0)@ != key@,
        decreases entries@.len() - i,
    {
        if entries[i].0 == *key {
            proof {
                lemma_lookup_found(entries@, key@, i as int);
            }
            return Some(&entries[i].1);
        }
        i = i + 1;
    }
    proof {
        lemma_lookup_absent(entries@, key@);
    }
    None
}

} // verus!
