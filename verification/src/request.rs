use vstd::prelude::*;
use crate::json::{obj_has, obj_lookup, JsonValue};
use crate::model::{Message, ModelConfig, Role, ToolDef};
use crate::decode::{field, has_field, str_field, str_field_ok};

verus! {

// ---------------------------------------------------------------------------
// What a built request looks like
// ---------------------------------------------------------------------------

pub open spec fn spec_role_name(r: Role) -> Seq<char> {
    match r {
        Role::System => "system"@,
        Role::User => "user"@,
        Role::Assistant => "assistant"@,
        Role::Tool => "tool"@,
    }
}

/// The wire name of a role.
pub fn role_name(r: Role) -> (s: String)
    ensures
        s@ == spec_role_name(r),
{
    match r {
        Role::System => "system".to_owned(),
        Role::User => "user".to_owned(),
        Role::Assistant => "assistant".to_owned(),
        Role::Tool => "tool".to_owned(),
    }
}

/// One input item carries exactly one message's role name and content.
pub open spec fn msg_item_ok(item: JsonValue, m: Message) -> bool {
    &&& str_field_ok(item, "role"@)
    &&& str_field(item, "role"@) == spec_role_name(m.role)
    &&& str_field_ok(item, "content"@)
    &&& str_field(item, "content"@) == m.content@
}

/// One tools item carries exactly one tool's name and description.
pub open spec fn tool_item_ok(item: JsonValue, t: ToolDef) -> bool {
    &&& str_field_ok(item, "name"@)
    &&& str_field(item, "name"@) == t.name@
    &&& str_field_ok(item, "description"@)
    &&& str_field(item, "description"@) == t.description@
}

/// A built request payload: the targeted model, the system prompt as the
/// instructions, one input item per message in order, and one tools item
/// per tool in order.
pub open spec fn request_matches(
    p: JsonValue,
    model: Seq<char>,
    system: Seq<char>,
    messages: Seq<Message>,
    tools: Seq<ToolDef>,
) -> bool {
    &&& str_field_ok(p, "model"@)
    &&& str_field(p, "model"@) == model
    &&& str_field_ok(p, "instructions"@)
    &&& str_field(p, "instructions"@) == system
    &&& has_field(p, "input"@)
    &&& field(p, "input"@) is Arr
    &&& field(p, "input"@)->Arr_0@.len() == messages.len()
    &&& (forall|i: int|
        0 <= i < messages.len() ==> msg_item_ok(
            #[trigger] field(p, "input"@)->Arr_0@[i],
            messages[i],
        ))
    &&& has_field(p, "tools"@)
    &&& field(p, "tools"@) is Arr
    &&& field(p, "tools"@)->Arr_0@.len() == tools.len()
    &&& (forall|i: int|
        0 <= i < tools.len() ==> tool_item_ok(#[trigger] field(p, "tools"@)->Arr_0@[i], tools[i]))
}

// ---------------------------------------------------------------------------
// Building
// ---------------------------------------------------------------------------

fn two_entry_obj(first_key: &str, first: JsonValue, second_key: &str, second: JsonValue) -> (r:
    JsonValue)
    ensures
        r is Obj,
        r->Obj_0@.len() == 2,
        r->Obj_0@[0].0@ == first_key@,
        r->Obj_0@[0].1 == first,
        r->Obj_0@[1].0@ == second_key@,
        r->Obj_0@[1].1 == second,
{
    let mut entries: Vec<(String, JsonValue)> = Vec::new();
    entries.push((first_key.to_owned(), first));
    entries.push((second_key.to_owned(), second));
    JsonValue::Obj(entries)
}

proof fn lemma_two_entry_lookup(entries: Seq<(String, JsonValue)>, k0: Seq<char>, k1: Seq<char>)
    requires
        entries.len() == 2,
        entries[0].0@ == k0,
        entries[1].0@ == k1,
        k0 != k1,
    ensures
        obj_has(entries, k0),
        obj_has(entries, k1),
        obj_lookup(entries, k0) == entries[0].1,
        obj_lookup(entries, k1) == entries[1].1,
{
    assert(entries.skip(1)[0] == entries[1]);
    assert(obj_lookup(entries, k1) == obj_lookup(entries.skip(1), k1));
}

/// Builds the outbound request payload from the conversation: the vendor
/// request the transport will send. The streaming flag is not set here; a
/// streaming call toggles it on the built payload afterwards.
pub fn create_responses_request(
    model_config: &ModelConfig,
    system: &str,
    messages: &[Message],
    tools: &[ToolDef],
) -> (r: JsonValue)
    ensures
        request_matches(r, model_config.model_name@, system@, messages@, tools@),
        !has_field(r, "stream"@),
{
    proof {
        reveal_strlit("role");
        reveal_strlit("content");
        reveal_strlit("name");
        reveal_strlit("description");
        reveal_strlit("model");
        reveal_strlit("instructions");
        reveal_strlit("input");
        reveal_strlit("tools");
        reveal_strlit("stream");
    }
    let mut input_items: Vec<JsonValue> = Vec::new();
    let mut i: usize = 0;
    while i < messages.len()
        invariant
            i <= messages@.len(),
            input_items@.len() == i,
            forall|j: int| 0 <= j < i ==> msg_item_ok(#[trigger] input_items@[j], messages@[j]),
        decreases messages@.len() - i,
    {
        let m = &messages[i];
        let item = two_entry_obj(
            "role",
            JsonValue::Str(role_name(m.role)),
            "content",
            JsonValue::Str(m.content.clone()),
        );
        proof {
            reveal_strlit("role");
            reveal_strlit("content");
            assert("role"@.len() == 4);
            assert("content"@.len() == 7);
            lemma_two_entry_lookup(item->Obj_0@, "role"@, "content"@);
            assert(msg_item_ok(item, messages@[i as int]));
        }
        input_items.push(item);
        i += 1;
    }
    let mut tool_items: Vec<JsonValue> = Vec::new();
    let mut t: usize = 0;
    while t < tools.len()
        invariant
            t <= tools@.len(),
            tool_items@.len() == t,
            forall|j: int| 0 <= j < t ==> tool_item_ok(#[trigger] tool_items@[j], tools@[j]),
        decreases tools@.len() - t,
    {
        let tool = &tools[t];
        let item = two_entry_obj(
            "name",
            JsonValue::Str(tool.name.clone()),
            "description",
            JsonValue::Str(tool.description.clone()),
        );
        proof {
            reveal_strlit("name");
            reveal_strlit("description");
            assert("name"@.len() == 4);
            assert("description"@.len() == 11);
            lemma_two_entry_lookup(item->Obj_0@, "name"@, "description"@);
            assert(tool_item_ok(item, tools@[t as int]));
        }
        tool_items.push(item);
        t += 1;
    }
    let mut entries: Vec<(String, JsonValue)> = Vec::new();
    entries.push(("model".to_owned(), JsonValue::Str(model_config.model_name.clone())));
    entries.push(("instructions".to_owned(), JsonValue::Str(system.to_owned())));
    entries.push(("input".to_owned(), JsonValue::Arr(input_items)));
    entries.push(("tools".to_owned(), JsonValue::Arr(tool_items)));
    let r = JsonValue::Obj(entries);
    proof {
        reveal_strlit("model");
        reveal_strlit("instructions");
        reveal_strlit("input");
        reveal_strlit("tools");
        reveal_strlit("stream");
        let es = r->Obj_0@;
        assert("model"@.len() == 5);
        assert("instructions"@.len() == 12);
        assert("input"@.len() == 5);
        assert("tools"@.len() == 5);
        assert("stream"@.len() == 6);
        assert("model"@[0] == 'm');
        assert("input"@[0] == 'i');
        assert("tools"@[0] == 't');
        assert("model"@ != "instructions"@);
        assert("model"@ != "input"@);
        assert("model"@ != "tools"@);
        assert("instructions"@ != "input"@);
        assert("instructions"@ != "tools"@);
        assert("input"@ != "tools"@);
        assert(es.skip(1)[0] == es[1]);
        assert(es.skip(1).skip(1) =~= es.skip(2));
        assert(es.skip(2)[0] == es[2]);
        assert(es.skip(2).skip(1) =~= es.skip(3));
        assert(es.skip(3)[0] == es[3]);
        assert(obj_lookup(es, "model"@) == es[0].1);
        assert(obj_lookup(es, "instructions"@) == obj_lookup(es.skip(1), "instructions"@));
        assert(obj_lookup(es, "input"@) == obj_lookup(es.skip(1), "input"@));
        assert(obj_lookup(es.skip(1), "input"@) == obj_lookup(es.skip(1).skip(1), "input"@));
        assert(obj_lookup(es.skip(2), "input"@) == es[2].1);
        assert(obj_lookup(es, "tools"@) == obj_lookup(es.skip(1), "tools"@));
        assert(obj_lookup(es.skip(1), "tools"@) == obj_lookup(es.skip(1).skip(1), "tools"@));
        assert(obj_lookup(es.skip(2), "tools"@) == obj_lookup(es.skip(2).skip(1), "tools"@));
        assert(obj_lookup(es.skip(3), "tools"@) == es[3].1);
        assert forall|j: int| 0 <= j < es.len() implies es[j].0@ != "stream"@ by {
            if j == 0 {
                assert(es[0].0@ != "stream"@);
            } else if j == 1 {
                assert(es[1].0@ != "stream"@);
            } else if j == 2 {
                assert(es[2].0@ != "stream"@);
            } else {
                assert(es[3].0@ != "stream"@);
            }
        }
    }
    r
}

// ---------------------------------------------------------------------------
// Toggling the streaming flag on a built payload
// ---------------------------------------------------------------------------

proof fn lemma_has_snoc(s: Seq<(String, JsonValue)>, kv: (String, JsonValue), k: Seq<char>)
    ensures
        obj_has(s.push(kv), k) <==> (obj_has(s, k) || kv.0@ == k),
{
    if obj_has(s, k) {
        let i = choose|i: int| 0 <= i < s.len() && s[i].0@ == k;
        assert(s.push(kv)[i] == s[i]);
        assert(obj_has(s.push(kv), k));
    }
    if kv.0@ == k {
        assert(s.push(kv)[s.len() as int] == kv);
        assert(obj_has(s.push(kv), k));
    }
    if obj_has(s.push(kv), k) {
        let i = choose|i: int| 0 <= i < s.push(kv).len() && s.push(kv)[i].0@ == k;
        if i < s.len() {
            assert(s[i] == s.push(kv)[i]);
            assert(obj_has(s, k));
        } else {
            assert(s.push(kv)[i] == kv);
        }
    }
}

proof fn lemma_lookup_snoc(s: Seq<(String, JsonValue)>, kv: (String, JsonValue), k: Seq<char>)
    ensures
        k != kv.0@ && obj_has(s, k) ==> obj_lookup(s.push(kv), k) == obj_lookup(s, k),
        k == kv.0@ && !obj_has(s, k) ==> obj_lookup(s.push(kv), k) == kv.1,
    decreases s.len(),
{
    if s.len() == 0 {
        assert(s.push(kv)[0] == kv);
        assert(s.push(kv).skip(1) =~= Seq::<(String, JsonValue)>::empty());
    } else {
        assert(s.push(kv)[0] == s[0]);
        assert(s.push(kv).skip(1) =~= s.skip(1).push(kv));
        lemma_lookup_snoc(s.skip(1), kv, k);
        if s[0].0@ != k {
            assert(obj_has(s, k) ==> obj_has(s.skip(1), k)) by {
                if obj_has(s, k) {
                    let i = choose|i: int| 0 <= i < s.len() && s[i].0@ == k;
                    assert(s.skip(1)[i - 1] == s[i]);
                }
            }
            assert(!obj_has(s, k) ==> !obj_has(s.skip(1), k)) by {
                if obj_has(s.skip(1), k) {
                    let i = choose|i: int| 0 <= i < s.skip(1).len() && s.skip(1)[i].0@ == k;
                    assert(s.skip(1)[i] == s[i + 1]);
                }
            }
        }
    }
}

/// Sets the streaming flag on an already-built payload, leaving every other
/// field exactly as it was.
pub fn set_stream_flag(payload: &mut JsonValue)
    requires
        *old(payload) is Obj,
        !has_field(*old(payload), "stream"@),
    ensures
        *final(payload) is Obj,
        has_field(*final(payload), "stream"@),
        field(*final(payload), "stream"@) == JsonValue::Bool(true),
        forall|k: Seq<char>|
            k != "stream"@ ==> ((has_field(*final(payload), k) <==> has_field(
                *old(payload),
                k,
            )) && (has_field(*old(payload), k) ==> field(*final(payload), k) == field(
                *old(payload),
                k,
            ))),
{
    let ghost old_entries = old(payload)->Obj_0@;
    let kv_value = JsonValue::Bool(true);
    match payload {
        JsonValue::Obj(entries) => {
            entries.push(("stream".to_owned(), kv_value));
        },
        _ => {
            proof {
                assert(false);
            }
        },
    }
    proof {
        let es = final(payload)->Obj_0@;
        let kv = es.last();
        assert(es == old_entries.push(kv));
        assert(kv.0@ == "stream"@ && kv.1 == JsonValue::Bool(true));
        lemma_has_snoc(old_entries, kv, "stream"@);
        lemma_lookup_snoc(old_entries, kv, "stream"@);
        assert forall|k: Seq<char>| k != "stream"@ implies ((obj_has(es, k) <==> obj_has(
            old_entries,
            k,
        )) && (obj_has(old_entries, k) ==> obj_lookup(es, k) == obj_lookup(old_entries, k))) by {
            lemma_has_snoc(old_entries, kv, k);
            lemma_lookup_snoc(old_entries, kv, k);
        }
    }
}

} // verus!
