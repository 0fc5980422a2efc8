use vstd::prelude::*;
use crate::json::JsonValue;

verus! {

/// The author of one conversation entry.
#[derive(Clone, Copy, Debug, PartialEq, Eq, Structural)]
pub enum Role {
    System,
    User,
    Assistant,
    Tool,
}

/// One ordered entry in a conversation: who spoke and what was said.
pub struct Message {
    pub role: Role,
    pub content: String,
}

impl Message {
    /// A field-for-field copy of the message.
    pub fn duplicate(&self) -> (r: Message)
        ensures
            r == *self,
    {
        Message { role: self.role, content: self.content.clone() }
    }
}

/// Token accounting for one exchange.
#[derive(Clone, Copy, Debug, PartialEq, Eq, Structural)]
pub struct Usage {
    pub input_tokens: u64,
    pub output_tokens: u64,
}

/// Usage together with the model that actually produced the response,
/// which may differ from the requested model alias.
pub struct ProviderUsage {
    pub model: String,
    pub usage: Usage,
}

impl ProviderUsage {
    pub fn new(model: String, usage: Usage) -> (r: ProviderUsage)
        ensures
            r.model == model,
            r.usage == usage,
    {
        ProviderUsage { model, usage }
    }
}

/// Identifies which remote model variant a call targets.
pub struct ModelConfig {
    pub model_name: String,
}

/// A tool offered to the model: its name and what it does.
pub struct ToolDef {
    pub name: String,
    pub description: String,
}

/// How a non-success HTTP status was classified by the external status
/// handler: worth another attempt, or hopeless.
#[derive(Clone, Copy, Debug, PartialEq, Eq, Structural)]
pub enum StatusClass {
    Retryable,
    Fatal,
}

/// The kind of a provider failure, with no message attached.
#[derive(Clone, Copy, Debug, PartialEq, Eq, Structural)]
pub enum ErrorKind {
    Config,
    Transport,
    Status,
    Decode,
    Schema,
}

/// Every failure surfaced to a caller of this library.
#[derive(Debug)]
pub enum ProviderError {
    /// Invalid host or timeout at construction.
    Config(String),
    /// Connection or timeout failure, surfaced after retries are exhausted.
    Transport(String),
    /// Non-success HTTP status, with its external classification.
    Status(StatusClass, String),
    /// Malformed response envelope or malformed streamed event.
    Decode(String),
    /// Well-formed JSON missing an expected field.
    Schema(String),
}

impl ProviderError {
    pub open spec fn kind(&self) -> ErrorKind {
        match self {
            ProviderError::Config(_) => ErrorKind::Config,
            ProviderError::Transport(_) => ErrorKind::Transport,
            ProviderError::Status(_, _) => ErrorKind::Status,
            ProviderError::Decode(_) => ErrorKind::Decode,
            ProviderError::Schema(_) => ErrorKind::Schema,
        }
    }

    pub fn kind_of(&self) -> (k: ErrorKind)
        ensures
            k == self.kind(),
    {
        match self {
            ProviderError::Config(_) => ErrorKind::Config,
            ProviderError::Transport(_) => ErrorKind::Transport,
            ProviderError::Status(_, _) => ErrorKind::Status,
            ProviderError::Decode(_) => ErrorKind::Decode,
            ProviderError::Schema(_) => ErrorKind::Schema,
        }
    }

    pub open spec fn spec_detail(&self) -> Seq<char> {
        match self {
            ProviderError::Config(m) => m@,
            ProviderError::Transport(m) => m@,
            ProviderError::Status(_, m) => m@,
            ProviderError::Decode(m) => m@,
            ProviderError::Schema(m) => m@,
        }
    }

    /// The human-readable detail carried by the error.
    pub fn detail(&self) -> (m: &String)
        ensures
            m@ == self.spec_detail(),
    {
        match self {
            ProviderError::Config(m) => m,
            ProviderError::Transport(m) => m,
            ProviderError::Status(_, m) => m,
            ProviderError::Decode(m) => m,
            ProviderError::Schema(m) => m,
        }
    }
}

/// One decoded unit of a streamed response: a partial-or-final message,
/// with usage attached only on the final fragment.
pub struct StreamFragment {
    pub message: Message,
    pub usage: Option<ProviderUsage>,
}

/// One entry of a request log.
pub enum LogEvent {
    /// A response or fragment was recorded; a usage-bearing write is the
    /// final, successful one.
    Write { usage: Option<Usage> },
    /// The call failed with the given kind of error.
    Failure { kind: ErrorKind },
}

/// Whether a log entry closes the record: a failure, or the final
/// usage-bearing write.
pub open spec fn is_terminal_event(e: LogEvent) -> bool {
    match e {
        LogEvent::Write { usage } => usage is Some,
        LogEvent::Failure { .. } => true,
    }
}

/// The write-once-per-call observability record: the outbound payload and
/// everything that happened to the call, ending in exactly one outcome.
pub struct RequestLog {
    pub payload: JsonValue,
    pub events: Vec<LogEvent>,
}

impl RequestLog {
    /// The record is closed once a terminal entry has been written.
    pub open spec fn closed(self) -> bool {
        self.events@.len() > 0 && is_terminal_event(self.events@.last())
    }

    /// Only the last entry may be terminal: one outcome per call, never two.
    pub open spec fn wf(self) -> bool {
        forall|i: int|
            0 <= i < self.events@.len() - 1 ==> !is_terminal_event(#[trigger] self.events@[i])
    }

    /// Opens the record for one call, keeping the payload that was sent.
    pub fn start(payload: JsonValue) -> (r: RequestLog)
        ensures
            r.payload == payload,
            r.events@ =~= Seq::<LogEvent>::empty(),
            r.wf(),
            !r.closed(),
    {
        RequestLog { payload, events: Vec::new() }
    }

    /// Records a response or fragment; a usage-bearing write closes the record.
    pub fn write(&mut self, usage: Option<Usage>)
        requires
            old(self).wf(),
            !old(self).closed(),
        ensures
            final(self).wf(),
            final(self).payload == old(self).payload,
            final(self).events@ == old(self).events@.push(LogEvent::Write { usage }),
            final(self).closed() <==> usage is Some,
    {
        self.events.push(LogEvent::Write { usage });
    }

    /// Records the call's failure, closing the record.
    pub fn fail(&mut self, kind: ErrorKind)
        requires
            old(self).wf(),
            !old(self).closed(),
        ensures
            final(self).wf(),
            final(self).payload == old(self).payload,
            final(self).events@ == old(self).events@.push(LogEvent::Failure { kind }),
            final(self).closed(),
    {
        self.events.push(LogEvent::Failure { kind });
    }
}

} // verus!
