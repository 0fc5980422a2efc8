use vstd::prelude::*;

verus! {

/// A JSON value already parsed from text, holding as plain data exactly what
/// the decoders read. Object entries keep their textual order. A number that
/// does not fit a signed 64-bit integer is carried as `Frac` and treated as
/// ill-typed by every decoder, so no floating-point value enters the library.
pub enum JsonValue {
    Null,
    Bool(bool),
    Int(i64),
    Frac,
    Str(String),
    Arr(Vec<JsonValue>),
    Obj(Vec<(String, JsonValue)>),
}

/// Whether an object's entry list contains the given key.
pub open spec fn obj_has(entries: Seq<(String, JsonValue)>, key: Seq<char>) -> bool {
    exists|i: int| 0 <= i < entries.len() && entries[i].0@ == key
}

/// The value of the first entry with the given key; `Null` when absent.
pub open spec fn obj_lookup(entries: Seq<(String, JsonValue)>, key: Seq<char>) -> JsonValue
    decreases entries.len(),
{
    if entries.len() == 0 {
        JsonValue::Null
    } else if entries[0].0@ == key {
        entries[0].1
    } else {
        obj_lookup(entries.skip(1), key)
    }
}

proof fn lemma_obj_lookup_at(entries: Seq<(String, JsonValue)>, key: Seq<char>, i: int)
    requires
        0 <= i < entries.len(),
        entries[i].0@ == key,
        forall|j: int| 0 <= j < i ==> #[trigger] entries[j].0@ != key,
    ensures
        obj_has(entries, key),
        obj_lookup(entries, key) == entries[i].1,
    decreases i,
{
    if i > 0 {
        assert(forall|j: int| 0 <= j < i - 1 ==> #[trigger] entries.skip(1)[j].0@ != key);
        lemma_obj_lookup_at(entries.skip(1), key, i - 1);
    }
}

/// Looks a key up in an object's entry list, returning the first match.
pub fn obj_get<'a>(entries: &'a Vec<(String, JsonValue)>, key: &str) -> (r: Option<&'a JsonValue>)
    ensures
        r is Some <==> obj_has(entries@, key@),
        r matches Some(v) ==> *v == obj_lookup(entries@, key@),
{
    let owned_key = key.to_owned();
    let mut i: usize = 0;
    while i < entries.len()
        invariant
            i <= entries@.len(),
            owned_key@ == key@,
            forall|j: int| 0 <= j < i ==> #[trigger] entries@[j].0@ != key@,
        decreases entries@.len() - i,
    {
        let pair = &entries[i];
        if pair.0 == owned_key {
            proof {
                lemma_obj_lookup_at(entries@, key@, i as int);
            }
            return Some(&pair.1);
        }
        i += 1;
    }
    None
}

} // verus!
