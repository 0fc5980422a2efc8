use vstd::prelude::*;
use crate::json::{obj_get, JsonValue};
use crate::model::{ProviderError, ProviderUsage, StreamFragment};
use crate::decode::{concat_contents, decode_err, decode_output, decode_usage, field, has_field,
    item_role, output_ok, spec_usage, str_field, str_field_ok, usage_ok};

verus! {

// ---------------------------------------------------------------------------
// The stream event grammar
// ---------------------------------------------------------------------------

/// A keep-alive or other framing noise: an object carrying neither output
/// nor usage. It produces no fragment.
pub open spec fn event_is_noise(v: JsonValue) -> bool {
    &&& v is Obj
    &&& !has_field(v, "output"@)
    &&& !has_field(v, "usage"@)
}

pub open spec fn event_items(v: JsonValue) -> Seq<JsonValue> {
    field(v, "output"@)->Arr_0@
}

/// The event carries a decodable output array.
pub open spec fn event_output_ok(v: JsonValue) -> bool {
    &&& has_field(v, "output"@)
    &&& field(v, "output"@) is Arr
    &&& output_ok(event_items(v))
}

/// A non-final fragment event: output without usage.
pub open spec fn event_is_fragment(v: JsonValue) -> bool {
    &&& event_output_ok(v)
    &&& !has_field(v, "usage"@)
}

/// The final event: output plus usage and the producing model's name.
pub open spec fn event_is_final(v: JsonValue) -> bool {
    &&& event_output_ok(v)
    &&& has_field(v, "usage"@)
    &&& usage_ok(field(v, "usage"@))
    &&& str_field_ok(v, "model"@)
    &&& str_field(v, "model"@).len() > 0
}

pub open spec fn event_ok(v: JsonValue) -> bool {
    ||| event_is_noise(v)
    ||| event_is_fragment(v)
    ||| event_is_final(v)
}

pub open spec fn event_message_role(v: JsonValue) -> crate::model::Role {
    item_role(event_items(v)[0])
}

pub open spec fn event_message_content(v: JsonValue) -> Seq<char> {
    concat_contents(event_items(v))
}

pub open spec fn event_usage(v: JsonValue) -> crate::model::Usage {
    spec_usage(field(v, "usage"@))
}

pub open spec fn event_model(v: JsonValue) -> Seq<char> {
    str_field(v, "model"@)
}

// ---------------------------------------------------------------------------
// The translator
// ---------------------------------------------------------------------------

/// Where one stream's translation stands.
#[derive(Clone, Copy, Debug, PartialEq, Eq, Structural)]
pub enum StreamState {
    /// Fragments may still arrive.
    Active,
    /// The final usage-bearing fragment has been emitted.
    Finished,
    /// A malformed event ended the stream; nothing more is emitted.
    Failed,
}

/// The usage attached to a fragment's log write, if any.
pub open spec fn fragment_usage(f: StreamFragment) -> Option<crate::model::Usage> {
    match f.usage {
        Some(pu) => Some(pu.usage),
        None => None,
    }
}

/// Translates one stream's decoded event lines, in order, into message
/// fragments: zero or more non-final fragments, then exactly one final
/// fragment carrying usage — unless a malformed event fails the stream
/// first. State is scoped to one stream instance.
pub struct StreamTranslator {
    pub state: StreamState,
    pub emitted: Ghost<Seq<StreamFragment>>,
}

impl StreamTranslator {
    /// Only the final fragment of a finished stream carries usage; while the
    /// stream is active, no emitted fragment carries any.
    pub open spec fn wf(self) -> bool {
        match self.state {
            StreamState::Active => forall|i: int|
                0 <= i < self.emitted@.len() ==> (#[trigger] self.emitted@[i]).usage is None,
            StreamState::Finished => {
                &&& self.emitted@.len() > 0
                &&& self.emitted@.last().usage is Some
                &&& forall|i: int|
                    0 <= i < self.emitted@.len() - 1 ==> (#[trigger] self.emitted@[i]).usage
                        is None
            },
            StreamState::Failed => true,
        }
    }

    pub fn new() -> (r: StreamTranslator)
        ensures
            r.wf(),
            r.state == StreamState::Active,
            r.emitted@ =~= Seq::<StreamFragment>::empty(),
    {
        StreamTranslator { state: StreamState::Active, emitted: Ghost(Seq::empty()) }
    }

    /// Translates one decoded event line. Fragments come out in event order;
    /// a malformed event, or any event after the final one, fails the stream
    /// with a decode error and nothing further is emitted.
    pub fn on_event(&mut self, v: &JsonValue) -> (r: Result<Option<StreamFragment>, ProviderError>)
        requires
            old(self).wf(),
            old(self).state != StreamState::Failed,
        ensures
            final(self).wf(),
            r matches Ok(Some(f)) ==> final(self).emitted@ == old(self).emitted@.push(f),
            !(r matches Ok(Some(_))) ==> final(self).emitted@ == old(self).emitted@,
            r matches Err(e) ==> e is Decode && final(self).state == StreamState::Failed,
            old(self).state == StreamState::Finished ==> r is Err,
            old(self).state == StreamState::Active ==> (r is Err <==> !event_ok(*v)),
            old(self).state == StreamState::Active && event_is_noise(*v) ==> (r matches Ok(None)
                && final(self).state == StreamState::Active),
            old(self).state == StreamState::Active && event_is_fragment(*v) ==> (r matches Ok(
                Some(f),
            ) && {
                &&& f.usage is None
                &&& f.message.role == event_message_role(*v)
                &&& f.message.content@ == event_message_content(*v)
                &&& final(self).state == StreamState::Active
            }),
            old(self).state == StreamState::Active && event_is_final(*v) ==> (r matches Ok(
                Some(f),
            ) && {
                &&& f.usage matches Some(pu) && pu.model@ == event_model(*v) && pu.model@.len()
                    > 0 && pu.usage == event_usage(*v)
                &&& f.message.role == event_message_role(*v)
                &&& f.message.content@ == event_message_content(*v)
                &&& final(self).state == StreamState::Finished
            }),
    {
        if matches!(self.state, StreamState::Finished) {
            self.state = StreamState::Failed;
            return Err(decode_err("stream event after the final fragment"));
        }
        let entries = match v {
            JsonValue::Obj(entries) => entries,
            _ => {
                self.state = StreamState::Failed;
                return Err(decode_err("stream event is not a JSON object"));
            },
        };
        let out_v = match obj_get(entries, "output") {
            Some(out_v) => out_v,
            None => {
                match obj_get(entries, "usage") {
                    Some(_) => {
                        self.state = StreamState::Failed;
                        return Err(decode_err("stream event has usage but no output"));
                    },
                    None => {
                        return Ok(None);
                    },
                }
            },
        };
        let items = match out_v {
            JsonValue::Arr(items) => items,
            _ => {
                self.state = StreamState::Failed;
                return Err(decode_err("stream event output is not an array"));
            },
        };
        let message = match decode_output(items) {
            Ok(m) => m,
            Err(e) => {
                self.state = StreamState::Failed;
                return Err(e);
            },
        };
        match obj_get(entries, "usage") {
            None => {
                let f = StreamFragment { message, usage: None };
                proof {
                    assert(forall|i: int|
                        0 <= i < old(self).emitted@.len() ==> (#[trigger] old(
                            self,
                        ).emitted@[i]).usage is None);
                }
                self.emitted = Ghost(self.emitted@.push(f));
                Ok(Some(f))
            },
            Some(usage_v) => {
                let usage = match decode_usage(usage_v) {
                    Ok(u) => u,
                    Err(e) => {
                        self.state = StreamState::Failed;
                        return Err(e);
                    },
                };
                let model_s = match obj_get(entries, "model") {
                    Some(JsonValue::Str(s)) => s,
                    _ => {
                        self.state = StreamState::Failed;
                        return Err(decode_err("final stream event has no model string"));
                    },
                };
                if model_s.as_str().is_empty() {
                    self.state = StreamState::Failed;
                    return Err(decode_err("final stream event names an empty model"));
                }
                let f = StreamFragment {
                    message,
                    usage: Some(ProviderUsage { model: model_s.clone(), usage }),
                };
                self.emitted = Ghost(self.emitted@.push(f));
                self.state = StreamState::Finished;
                Ok(Some(f))
            },
        }
    }
}

/// Streaming order: a finished stream emitted its fragments in decode order
/// — each `on_event` appends at most one fragment — and only the last one
/// carries usage.
pub proof fn lemma_stream_fragment_order(t: StreamTranslator)
    requires
        t.wf(),
        t.state == StreamState::Finished,
    ensures
        t.emitted@.len() > 0,
        t.emitted@.last().usage is Some,
        forall|i: int| 0 <= i < t.emitted@.len() - 1 ==> (#[trigger] t.emitted@[i]).usage is None,
{
}

} // verus!
