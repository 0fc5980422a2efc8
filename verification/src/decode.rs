use vstd::prelude::*;
use vstd::relations::{antisymmetric, reflexive, sorted_by, strongly_connected, total_ordering,
    transitive};
use vstd::seq_lib::lemma_sorted_unique;
use vstd::string::StringExecFns;
use crate::json::{obj_get, obj_has, obj_lookup, JsonValue};
use crate::model::{Message, ProviderError, ProviderUsage, Role, Usage};

verus! {

// ---------------------------------------------------------------------------
// Field access on a decoded JSON value
// ---------------------------------------------------------------------------

pub open spec fn has_field(v: JsonValue, key: Seq<char>) -> bool {
    v is Obj && obj_has(v->Obj_0@, key)
}

pub open spec fn field(v: JsonValue, key: Seq<char>) -> JsonValue {
    obj_lookup(v->Obj_0@, key)
}

pub open spec fn str_field_ok(v: JsonValue, key: Seq<char>) -> bool {
    has_field(v, key) && field(v, key) is Str
}

pub open spec fn str_field(v: JsonValue, key: Seq<char>) -> Seq<char> {
    field(v, key)->Str_0@
}

pub open spec fn count_field_ok(v: JsonValue, key: Seq<char>) -> bool {
    has_field(v, key) && field(v, key) is Int && field(v, key)->Int_0 >= 0
}

pub open spec fn count_field(v: JsonValue, key: Seq<char>) -> int {
    field(v, key)->Int_0 as int
}

// ---------------------------------------------------------------------------
// Roles
// ---------------------------------------------------------------------------

pub open spec fn role_known(s: Seq<char>) -> bool {
    ||| s == "system"@
    ||| s == "user"@
    ||| s == "assistant"@
    ||| s == "tool"@
}

pub open spec fn spec_role_of(s: Seq<char>) -> Role {
    if s == "system"@ {
        Role::System
    } else if s == "user"@ {
        Role::User
    } else if s == "assistant"@ {
        Role::Assistant
    } else {
        Role::Tool
    }
}

/// Reads a wire role name; unknown names are rejected by the decoders.
pub fn parse_role(s: &String) -> (r: Option<Role>)
    ensures
        r is Some <==> role_known(s@),
        r matches Some(x) ==> x == spec_role_of(s@),
{
    if *s == "system".to_owned() {
        Some(Role::System)
    } else if *s == "user".to_owned() {
        Some(Role::User)
    } else if *s == "assistant".to_owned() {
        Some(Role::Assistant)
    } else if *s == "tool".to_owned() {
        Some(Role::Tool)
    } else {
        None
    }
}

// ---------------------------------------------------------------------------
// The batch response envelope
// ---------------------------------------------------------------------------

/// One entry of the envelope's output array: an object with a known role
/// and a textual content field.
pub open spec fn output_item_ok(v: JsonValue) -> bool {
    &&& str_field_ok(v, "role"@)
    &&& role_known(str_field(v, "role"@))
    &&& str_field_ok(v, "content"@)
}

pub open spec fn item_role(v: JsonValue) -> Role {
    spec_role_of(str_field(v, "role"@))
}

pub open spec fn item_content(v: JsonValue) -> Seq<char> {
    str_field(v, "content"@)
}

/// The contents of the output items, joined in order.
pub open spec fn concat_contents(items: Seq<JsonValue>) -> Seq<char>
    decreases items.len(),
{
    if items.len() == 0 {
        Seq::<char>::empty()
    } else {
        concat_contents(items.drop_last()) + item_content(items.last())
    }
}

/// A decodable output array: nonempty, every item well-formed.
pub open spec fn output_ok(items: Seq<JsonValue>) -> bool {
    &&& items.len() > 0
    &&& (forall|i: int| 0 <= i < items.len() ==> output_item_ok(#[trigger] items[i]))
}

/// The usage object: two non-negative integer token counts.
pub open spec fn usage_ok(u: JsonValue) -> bool {
    &&& count_field_ok(u, "input_tokens"@)
    &&& count_field_ok(u, "output_tokens"@)
}

pub open spec fn spec_usage(u: JsonValue) -> Usage {
    Usage {
        input_tokens: count_field(u, "input_tokens"@) as u64,
        output_tokens: count_field(u, "output_tokens"@) as u64,
    }
}

/// A well-formed batch response envelope: a nonempty model name, a nonempty
/// output array of well-formed items, and a usage object.
pub open spec fn envelope_ok(v: JsonValue) -> bool {
    &&& str_field_ok(v, "model"@)
    &&& str_field(v, "model"@).len() > 0
    &&& has_field(v, "output"@)
    &&& field(v, "output"@) is Arr
    &&& output_ok(env_output(v))
    &&& has_field(v, "usage"@)
    &&& usage_ok(field(v, "usage"@))
}

pub open spec fn env_model(v: JsonValue) -> Seq<char> {
    str_field(v, "model"@)
}

pub open spec fn env_output(v: JsonValue) -> Seq<JsonValue> {
    field(v, "output"@)->Arr_0@
}

pub open spec fn env_usage(v: JsonValue) -> Usage {
    spec_usage(field(v, "usage"@))
}

pub open spec fn env_message_role(v: JsonValue) -> Role {
    item_role(env_output(v)[0])
}

pub open spec fn env_message_content(v: JsonValue) -> Seq<char> {
    concat_contents(env_output(v))
}

pub(crate) fn decode_err(msg: &str) -> (e: ProviderError)
    ensures
        e is Decode,
        e.spec_detail() == msg@,
{
    ProviderError::Decode(msg.to_owned())
}

fn schema_err(msg: &str) -> (e: ProviderError)
    ensures
        e is Schema,
        e.spec_detail() == msg@,
{
    ProviderError::Schema(msg.to_owned())
}

/// Decodes the usage object of an envelope or of a final stream event.
pub fn decode_usage(u: &JsonValue) -> (r: Result<Usage, ProviderError>)
    ensures
        r is Ok <==> usage_ok(*u),
        r matches Ok(x) ==> x == spec_usage(*u),
        r matches Err(e) ==> e is Decode,
{
    let uentries = match u {
        JsonValue::Obj(ue) => ue,
        _ => {
            return Err(decode_err("usage is not a JSON object"));
        },
    };
    let input_tokens: u64 = match obj_get(uentries, "input_tokens") {
        Some(JsonValue::Int(n)) => {
            if *n < 0 {
                return Err(decode_err("usage input token count is negative"));
            }
            *n as u64
        },
        _ => {
            return Err(decode_err("usage has no integer input token count"));
        },
    };
    let output_tokens: u64 = match obj_get(uentries, "output_tokens") {
        Some(JsonValue::Int(n)) => {
            if *n < 0 {
                return Err(decode_err("usage output token count is negative"));
            }
            *n as u64
        },
        _ => {
            return Err(decode_err("usage has no integer output token count"));
        },
    };
    Ok(Usage { input_tokens, output_tokens })
}

/// Assembles the single domain message of an output array: the role of the
/// first item, and every item's content joined in order.
pub fn decode_output(items: &Vec<JsonValue>) -> (r: Result<Message, ProviderError>)
    ensures
        r is Ok <==> output_ok(items@),
        r matches Ok(m) ==> {
            &&& m.role == item_role(items@[0])
            &&& m.content@ == concat_contents(items@)
        },
        r matches Err(e) ==> e is Decode,
{
    if items.len() == 0 {
        return Err(decode_err("output array is empty"));
    }
    let mut content = String::new();
    let mut role = Role::Assistant;
    let mut i: usize = 0;
    while i < items.len()
        invariant
            i <= items@.len(),
            items@.len() > 0,
            forall|j: int| 0 <= j < i ==> output_item_ok(#[trigger] items@[j]),
            i > 0 ==> role == item_role(items@[0]),
            content@ == concat_contents(items@.take(i as int)),
        decreases items@.len() - i,
    {
        let item = &items[i];
        let ientries = match item {
            JsonValue::Obj(ie) => ie,
            _ => {
                proof {
                    assert(!output_item_ok(items@[i as int]));
                }
                return Err(decode_err("output item is not a JSON object"));
            },
        };
        let role_s = match obj_get(ientries, "role") {
            Some(JsonValue::Str(s)) => s,
            _ => {
                proof {
                    assert(!output_item_ok(items@[i as int]));
                }
                return Err(decode_err("output item has no role string"));
            },
        };
        let item_role_parsed = match parse_role(role_s) {
            Some(x) => x,
            None => {
                proof {
                    assert(!output_item_ok(items@[i as int]));
                }
                return Err(decode_err("output item has an unknown role"));
            },
        };
        let content_s = match obj_get(ientries, "content") {
            Some(JsonValue::Str(s)) => s,
            _ => {
                proof {
                    assert(!output_item_ok(items@[i as int]));
                }
                return Err(decode_err("output item has no content string"));
            },
        };
        if i == 0 {
            role = item_role_parsed;
        }
        content.append(content_s.as_str());
        proof {
            assert(items@.take(i as int + 1).drop_last() =~= items@.take(i as int));
            assert(items@.take(i as int + 1).last() == items@[i as int]);
        }
        i += 1;
    }
    proof {
        assert(items@.take(items@.len() as int) =~= items@);
    }
    Ok(Message { role, content })
}

/// Decodes a batch response envelope into the completed message and its
/// usage accounting: either the fully formed pair, or a decode error —
/// never a partial result.
pub fn decode_envelope(v: &JsonValue) -> (r: Result<(Message, ProviderUsage), ProviderError>)
    ensures
        r is Ok <==> envelope_ok(*v),
        r matches Ok(p) ==> {
            &&& p.0.role == env_message_role(*v)
            &&& p.0.content@ == env_message_content(*v)
            &&& p.1.model@ == env_model(*v)
            &&& p.1.model@.len() > 0
            &&& p.1.usage == env_usage(*v)
        },
        r matches Err(e) ==> e is Decode,
{
    let entries = match v {
        JsonValue::Obj(entries) => entries,
        _ => {
            return Err(decode_err("response envelope is not a JSON object"));
        },
    };
    let model_s = match obj_get(entries, "model") {
        Some(JsonValue::Str(s)) => s,
        _ => {
            return Err(decode_err("response envelope has no model string"));
        },
    };
    if model_s.as_str().is_empty() {
        return Err(decode_err("response envelope names an empty model"));
    }
    let items = match obj_get(entries, "output") {
        Some(JsonValue::Arr(items)) => items,
        _ => {
            return Err(decode_err("response envelope has no output array"));
        },
    };
    let message = match decode_output(items) {
        Ok(m) => m,
        Err(e) => {
            return Err(e);
        },
    };
    let usage_v = match obj_get(entries, "usage") {
        Some(u) => u,
        None => {
            return Err(decode_err("response envelope has no usage object"));
        },
    };
    let usage = match decode_usage(usage_v) {
        Ok(u) => u,
        Err(e) => {
            return Err(e);
        },
    };
    Ok((message, ProviderUsage { model: model_s.clone(), usage }))
}

/// For every well-formed envelope, the decoded usage names the envelope's
/// model, which is never empty.
pub proof fn lemma_decoded_usage_names_model(v: JsonValue)
    requires
        envelope_ok(v),
    ensures
        env_model(v).len() > 0,
{
}

// ---------------------------------------------------------------------------
// The model catalog
// ---------------------------------------------------------------------------

/// A well-formed catalog: an object whose `data` field is an array.
pub open spec fn catalog_ok(v: JsonValue) -> bool {
    &&& has_field(v, "data"@)
    &&& field(v, "data"@) is Arr
}

pub open spec fn catalog_items(v: JsonValue) -> Seq<JsonValue> {
    field(v, "data"@)->Arr_0@
}

/// The identifier a catalog entry exposes, when it exposes one.
pub open spec fn item_has_id(v: JsonValue) -> bool {
    str_field_ok(v, "id"@)
}

pub open spec fn item_id(v: JsonValue) -> Seq<char> {
    str_field(v, "id"@)
}

/// The identifiers of the catalog entries that expose one, in catalog order.
pub open spec fn ids_of(items: Seq<JsonValue>) -> Seq<Seq<char>>
    decreases items.len(),
{
    if items.len() == 0 {
        Seq::<Seq<char>>::empty()
    } else if item_has_id(items.last()) {
        ids_of(items.drop_last()).push(item_id(items.last()))
    } else {
        ids_of(items.drop_last())
    }
}

// ---------------------------------------------------------------------------
// The order model identifiers are listed in
// ---------------------------------------------------------------------------

/// Lexicographic order on character sequences by code point, which for
/// UTF-8 text coincides with `str`'s byte-wise order.
pub open spec fn lex_le(a: Seq<char>, b: Seq<char>) -> bool
    decreases a.len(),
{
    if a.len() == 0 {
        true
    } else if b.len() == 0 {
        false
    } else if a[0] != b[0] {
        (a[0] as int) < (b[0] as int)
    } else {
        lex_le(a.skip(1), b.skip(1))
    }
}

pub open spec fn lex_leq_fn() -> spec_fn(Seq<char>, Seq<char>) -> bool {
    |a: Seq<char>, b: Seq<char>| lex_le(a, b)
}

/// The views of a list of strings.
pub open spec fn views_of(ss: Seq<String>) -> Seq<Seq<char>> {
    ss.map_values(|s: String| s@)
}

proof fn lemma_lex_le_refl(a: Seq<char>)
    ensures
        lex_le(a, a),
    decreases a.len(),
{
    if a.len() > 0 {
        lemma_lex_le_refl(a.skip(1));
    }
}

proof fn lemma_lex_le_antisym(a: Seq<char>, b: Seq<char>)
    requires
        lex_le(a, b),
        lex_le(b, a),
    ensures
        a == b,
    decreases a.len(),
{
    if a.len() == 0 {
        assert(b.len() == 0);
        assert(a =~= b);
    } else {
        assert(b.len() > 0);
        if a[0] == b[0] {
            lemma_lex_le_antisym(a.skip(1), b.skip(1));
            assert(a.skip(1).len() == b.skip(1).len());
            assert(a.len() == b.len());
            assert forall|i: int| 0 <= i < a.len() implies a[i] == b[i] by {
                if i > 0 {
                    assert(a[i] == a.skip(1)[i - 1]);
                    assert(b[i] == b.skip(1)[i - 1]);
                }
            }
            assert(a =~= b);
        }
    }
}

proof fn lemma_lex_le_trans(a: Seq<char>, b: Seq<char>, c: Seq<char>)
    requires
        lex_le(a, b),
        lex_le(b, c),
    ensures
        lex_le(a, c),
    decreases a.len(),
{
    if a.len() > 0 {
        assert(b.len() > 0);
        assert(c.len() > 0);
        if a[0] == b[0] && b[0] == c[0] {
            lemma_lex_le_trans(a.skip(1), b.skip(1), c.skip(1));
        }
    }
}

proof fn lemma_lex_le_connected(a: Seq<char>, b: Seq<char>)
    ensures
        lex_le(a, b) || lex_le(b, a),
    decreases a.len(),
{
    if a.len() > 0 && b.len() > 0 && a[0] == b[0] {
        lemma_lex_le_connected(a.skip(1), b.skip(1));
    }
}

/// The listing order is a total order, so one sorted listing exists per
/// catalog contents.
pub proof fn lemma_lex_total()
    ensures
        total_ordering(lex_leq_fn()),
{
    let r = lex_leq_fn();
    assert forall|x: Seq<char>| #[trigger] r(x, x) by {
        lemma_lex_le_refl(x);
    }
    assert(reflexive(r));
    assert forall|x: Seq<char>, y: Seq<char>| #[trigger] r(x, y) && #[trigger] r(y, x) implies x
        == y by {
        lemma_lex_le_antisym(x, y);
    }
    assert(antisymmetric(r));
    assert forall|x: Seq<char>, y: Seq<char>, z: Seq<char>|
        #[trigger] r(x, y) && #[trigger] r(y, z) implies r(x, z) by {
        lemma_lex_le_trans(x, y, z);
    }
    assert(transitive(r));
    assert forall|x: Seq<char>, y: Seq<char>| #[trigger] r(x, y) || #[trigger] r(y, x) by {
        lemma_lex_le_connected(x, y);
    }
    assert(strongly_connected(r));
}

/// The one sorted listing of a catalog's identifiers.
pub open spec fn sorted_ids(v: JsonValue) -> Seq<Seq<char>> {
    ids_of(catalog_items(v)).sort_by(lex_leq_fn())
}

/// Relies on `<[String]>::sort` via `Vec`'s deref: sorts ascending and keeps
/// every element; `str`'s documented order is lexicographic by byte value,
/// which for UTF-8 equals the code-point order `lex_le` states.
#[verifier::external_body]
fn sort_model_ids(v: &mut Vec<String>)
    ensures
        views_of(final(v)@).to_multiset() == views_of(old(v)@).to_multiset(),
        sorted_by(views_of(final(v)@), lex_leq_fn()),
{
    v.sort();
}

/// Extracts the sorted list of model identifiers from a catalog response:
/// entries without an identifier are skipped, duplicates are kept, and a
/// catalog without a `data` array is a schema error.
pub fn supported_models(catalog: &JsonValue) -> (r: Result<Vec<String>, ProviderError>)
    ensures
        r is Ok <==> catalog_ok(*catalog),
        r matches Ok(ms) ==> views_of(ms@) == sorted_ids(*catalog),
        r matches Err(e) ==> e is Schema,
{
    let entries = match catalog {
        JsonValue::Obj(entries) => entries,
        _ => {
            return Err(schema_err("missing data field in JSON response"));
        },
    };
    let items = match obj_get(entries, "data") {
        Some(JsonValue::Arr(items)) => items,
        _ => {
            return Err(schema_err("missing data field in JSON response"));
        },
    };
    let mut ids: Vec<String> = Vec::new();
    let mut i: usize = 0;
    while i < items.len()
        invariant
            i <= items@.len(),
            items@ == catalog_items(*catalog),
            views_of(ids@) == ids_of(items@.take(i as int)),
        decreases items@.len() - i,
    {
        let item = &items[i];
        match item {
            JsonValue::Obj(ie) => {
                match obj_get(ie, "id") {
                    Some(JsonValue::Str(s)) => {
                        ids.push(s.clone());
                        proof {
                            assert(views_of(ids@) =~= views_of(ids@.drop_last()).push(s@));
                        }
                    },
                    _ => {},
                }
            },
            _ => {},
        }
        proof {
            assert(items@.take(i as int + 1).drop_last() =~= items@.take(i as int));
            assert(items@.take(i as int + 1).last() == items@[i as int]);
        }
        i += 1;
    }
    proof {
        assert(items@.take(items@.len() as int) =~= items@);
    }
    sort_model_ids(&mut ids);
    proof {
        lemma_lex_total();
        let source = ids_of(catalog_items(*catalog));
        source.lemma_sort_by_ensures(lex_leq_fn());
        lemma_sorted_unique(views_of(ids@), source.sort_by(lex_leq_fn()), lex_leq_fn());
        assert(views_of(ids@) == sorted_ids(*catalog));
    }
    Ok(ids)
}

/// Listing an unchanged catalog is idempotent: any two sorted listings with
/// the same identifiers are the same list.
pub proof fn lemma_listing_idempotent(a: Seq<Seq<char>>, b: Seq<Seq<char>>)
    requires
        sorted_by(a, lex_leq_fn()),
        sorted_by(b, lex_leq_fn()),
        a.to_multiset() == b.to_multiset(),
    ensures
        a == b,
{
    lemma_lex_total();
    lemma_sorted_unique(a, b, lex_leq_fn());
}

} // verus!
