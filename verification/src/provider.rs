use vstd::prelude::*;
use crate::json::JsonValue;
use crate::model::{ErrorKind, LogEvent, Message, ModelConfig, ProviderError, ProviderUsage,
    RequestLog, StatusClass, StreamFragment, ToolDef, Usage};
use crate::decode::{decode_envelope, env_message_content, env_message_role, env_model, env_usage,
    envelope_ok, field, has_field};
use crate::request::{create_responses_request, request_matches, set_stream_flag};
use crate::streaming::{event_is_final, event_is_fragment, event_is_noise, event_message_content,
    event_message_role, event_model, event_ok, event_usage, fragment_usage, StreamState,
    StreamTranslator};

verus! {

// ---------------------------------------------------------------------------
// Retry policy
// ---------------------------------------------------------------------------

/// How many full network round trips one call may spend. The backoff curve
/// between attempts belongs to the caller; the decisions here only count.
pub struct RetryPolicy {
    pub max_attempts: u64,
}

impl RetryPolicy {
    pub open spec fn wf(self) -> bool {
        self.max_attempts >= 1
    }

    pub fn new(max_attempts: u64) -> (r: RetryPolicy)
        requires
            max_attempts >= 1,
        ensures
            r.max_attempts == max_attempts,
            r.wf(),
    {
        RetryPolicy { max_attempts }
    }
}

/// The outcome of one attempted round trip, as the transport reports it.
/// A `Body` is the already-parsed JSON of a success-status response; an
/// `Unparseable` body means transport succeeded but the text was not JSON.
pub enum TransportEvent {
    Body(JsonValue),
    Unparseable(String),
    Transient(String),
    Status(StatusClass, String),
}

// ---------------------------------------------------------------------------
// The batch call
// ---------------------------------------------------------------------------

/// The observable state of one batch call: attempts spent, whether it is
/// over, and the log entries written so far.
pub ghost struct CallModel {
    pub attempts: int,
    pub done: bool,
    pub log: Seq<LogEvent>,
}

/// One decision step of a batch call, given the next transport outcome:
/// a body ends the call (decode decides how); a transient failure or a
/// retryable status is retried while attempts remain; everything else
/// fails the call. Every ending writes exactly one terminal log entry.
pub open spec fn spec_complete_step(m: CallModel, e: TransportEvent, max: int) -> CallModel {
    match e {
        TransportEvent::Body(j) => CallModel {
            attempts: m.attempts + 1,
            done: true,
            log: if envelope_ok(j) {
                m.log.push(LogEvent::Write { usage: Some(env_usage(j)) })
            } else {
                m.log.push(LogEvent::Failure { kind: ErrorKind::Decode })
            },
        },
        TransportEvent::Unparseable(_) => CallModel {
            attempts: m.attempts + 1,
            done: true,
            log: m.log.push(LogEvent::Failure { kind: ErrorKind::Decode }),
        },
        TransportEvent::Transient(_) => if m.attempts + 1 < max {
            CallModel { attempts: m.attempts + 1, done: false, log: m.log }
        } else {
            CallModel {
                attempts: m.attempts + 1,
                done: true,
                log: m.log.push(LogEvent::Failure { kind: ErrorKind::Transport }),
            }
        },
        TransportEvent::Status(c, _) => if c == StatusClass::Retryable && m.attempts + 1 < max {
            CallModel { attempts: m.attempts + 1, done: false, log: m.log }
        } else {
            CallModel {
                attempts: m.attempts + 1,
                done: true,
                log: m.log.push(LogEvent::Failure { kind: ErrorKind::Status }),
            }
        },
    }
}

/// What the caller should do next with a batch call.
pub enum CompleteStep {
    /// Make another round trip with a fresh clone of the payload.
    Retry,
    /// The call is over with this outcome.
    Done(Result<(Message, ProviderUsage), ProviderError>),
}

/// One batch `complete` call: builds its log at start, decides retries,
/// decodes the body, and finalizes the log exactly once.
pub struct CompleteCall {
    pub policy: RetryPolicy,
    pub attempts: u64,
    pub log: RequestLog,
    pub done: bool,
}

impl CompleteCall {
    pub open spec fn model(self) -> CallModel {
        CallModel { attempts: self.attempts as int, done: self.done, log: self.log.events@ }
    }

    pub open spec fn wf(self) -> bool {
        &&& self.policy.wf()
        &&& self.log.wf()
        &&& (!self.done ==> self.attempts < self.policy.max_attempts && !self.log.closed())
        &&& (self.done ==> self.log.closed())
    }

    /// Opens the call: the payload is recorded, no attempt has been made.
    pub fn start(policy: RetryPolicy, payload: JsonValue) -> (r: CompleteCall)
        requires
            policy.wf(),
        ensures
            r.wf(),
            !r.done,
            r.policy == policy,
            r.attempts == 0,
            r.log.payload == payload,
            r.log.events@ =~= Seq::<LogEvent>::empty(),
    {
        CompleteCall { policy, attempts: 0, log: RequestLog::start(payload), done: false }
    }

    /// Feeds the outcome of one round trip and decides what happens next.
    pub fn on_event(&mut self, e: TransportEvent) -> (r: CompleteStep)
        requires
            old(self).wf(),
            !old(self).done,
        ensures
            final(self).wf(),
            final(self).policy == old(self).policy,
            final(self).log.payload == old(self).log.payload,
            final(self).model() == spec_complete_step(
                old(self).model(),
                e,
                old(self).policy.max_attempts as int,
            ),
            r is Retry <==> !final(self).done,
            r matches CompleteStep::Done(res) ==> {
                &&& (res is Ok <==> (e matches TransportEvent::Body(j) && envelope_ok(j)))
                &&& (e matches TransportEvent::Body(j) ==> (if envelope_ok(j) {
                    res matches Ok(p) && {
                        &&& p.0.role == env_message_role(j)
                        &&& p.0.content@ == env_message_content(j)
                        &&& p.1.model@ == env_model(j)
                        &&& p.1.model@.len() > 0
                        &&& p.1.usage == env_usage(j)
                    }
                } else {
                    res matches Err(pe) && pe is Decode
                }))
                &&& (e matches TransportEvent::Unparseable(m) ==> res == Result::<(
                    Message,
                    ProviderUsage,
                ), ProviderError>::Err(ProviderError::Decode(m)))
                &&& (e matches TransportEvent::Transient(m) ==> res == Result::<(
                    Message,
                    ProviderUsage,
                ), ProviderError>::Err(ProviderError::Transport(m)))
                &&& (e matches TransportEvent::Status(c, m) ==> res == Result::<(
                    Message,
                    ProviderUsage,
                ), ProviderError>::Err(ProviderError::Status(c, m)))
            },
    {
        self.attempts = self.attempts + 1;
        match e {
            TransportEvent::Body(j) => {
                self.done = true;
                match decode_envelope(&j) {
                    Ok(p) => {
                        self.log.write(Some(p.1.usage));
                        CompleteStep::Done(Ok(p))
                    },
                    Err(err) => {
                        self.log.fail(ErrorKind::Decode);
                        CompleteStep::Done(Err(err))
                    },
                }
            },
            TransportEvent::Unparseable(m) => {
                self.done = true;
                self.log.fail(ErrorKind::Decode);
                CompleteStep::Done(Err(ProviderError::Decode(m)))
            },
            TransportEvent::Transient(m) => {
                if self.attempts < self.policy.max_attempts {
                    CompleteStep::Retry
                } else {
                    self.done = true;
                    self.log.fail(ErrorKind::Transport);
                    CompleteStep::Done(Err(ProviderError::Transport(m)))
                }
            },
            TransportEvent::Status(c, m) => {
                let retryable = matches!(c, StatusClass::Retryable);
                if retryable && self.attempts < self.policy.max_attempts {
                    CompleteStep::Retry
                } else {
                    self.done = true;
                    self.log.fail(ErrorKind::Status);
                    CompleteStep::Done(Err(ProviderError::Status(c, m)))
                }
            },
        }
    }
}

/// A batch call folded over a whole sequence of transport outcomes.
pub open spec fn spec_complete_run(m: CallModel, events: Seq<TransportEvent>, max: int) -> CallModel
    decreases events.len(),
{
    if events.len() == 0 {
        m
    } else {
        spec_complete_run(spec_complete_step(m, events[0], max), events.skip(1), max)
    }
}

proof fn lemma_run_append(m: CallModel, a: Seq<TransportEvent>, b: Seq<TransportEvent>, max: int)
    ensures
        spec_complete_run(m, a + b, max) == spec_complete_run(
            spec_complete_run(m, a, max),
            b,
            max,
        ),
    decreases a.len(),
{
    if a.len() == 0 {
        assert(a + b =~= b);
    } else {
        assert((a + b)[0] == a[0]);
        assert((a + b).skip(1) =~= a.skip(1) + b);
        lemma_run_append(spec_complete_step(m, a[0], max), a.skip(1), b, max);
    }
}

proof fn lemma_transients_keep_retrying(m0: CallModel, failures: Seq<TransportEvent>, max: int)
    requires
        !m0.done,
        m0.attempts + failures.len() < max,
        forall|i: int| 0 <= i < failures.len() ==> #[trigger] failures[i] is Transient,
    ensures
        ({
            let m1 = spec_complete_run(m0, failures, max);
            &&& !m1.done
            &&& m1.attempts == m0.attempts + failures.len()
            &&& m1.log == m0.log
        }),
    decreases failures.len(),
{
    if failures.len() > 0 {
        let m1 = spec_complete_step(m0, failures[0], max);
        assert(forall|i: int|
            0 <= i < failures.skip(1).len() ==> #[trigger] failures.skip(1)[i] is Transient);
        lemma_transients_keep_retrying(m1, failures.skip(1), max);
    }
}

/// Retry recovery: when the transport fails transiently any number of times
/// below the policy's maximum and then returns a well-formed body, the call
/// is still in flight after every failure, ends successfully, and the log
/// records exactly one write — the final success — and no failure.
pub proof fn lemma_retry_then_success(
    m0: CallModel,
    failures: Seq<TransportEvent>,
    body: JsonValue,
    max: int,
)
    requires
        !m0.done,
        m0.attempts == 0,
        m0.log == Seq::<LogEvent>::empty(),
        forall|i: int| 0 <= i < failures.len() ==> #[trigger] failures[i] is Transient,
        failures.len() < max,
        envelope_ok(body),
    ensures
        !spec_complete_run(m0, failures, max).done,
        spec_complete_run(m0, failures, max).log == Seq::<LogEvent>::empty(),
        ({
            let m2 = spec_complete_run(
                m0,
                failures + seq![TransportEvent::Body(body)],
                max,
            );
            &&& m2.done
            &&& m2.log == seq![LogEvent::Write { usage: Some(env_usage(body)) }]
        }),
{
    lemma_transients_keep_retrying(m0, failures, max);
    let m1 = spec_complete_run(m0, failures, max);
    lemma_run_append(m0, failures, seq![TransportEvent::Body(body)], max);
    let one = seq![TransportEvent::Body(body)];
    let m2 = spec_complete_step(m1, one[0], max);
    assert(one.skip(1) =~= Seq::<TransportEvent>::empty());
    assert(spec_complete_run(m2, Seq::<TransportEvent>::empty(), max) == m2);
    assert(spec_complete_run(m1, one, max) == spec_complete_run(m2, one.skip(1), max));
    assert(m1.log.push(LogEvent::Write { usage: Some(env_usage(body)) }) =~= seq![
        LogEvent::Write { usage: Some(env_usage(body)) },
    ]);
}

// ---------------------------------------------------------------------------
// The streaming call
// ---------------------------------------------------------------------------

/// The outcome of one attempt to open the stream: retries happen only up
/// to the first byte; once the stream is open nothing is retried.
pub enum ConnectEvent {
    Opened,
    Transient(String),
    Status(StatusClass, String),
}

/// What the caller should do next while connecting.
pub enum ConnectStep {
    Retry,
    Streaming,
    Fail(ProviderError),
}

#[derive(Clone, Copy, Debug, PartialEq, Eq, Structural)]
pub enum StreamPhase {
    Connecting,
    Streaming,
    Done,
}

/// One streaming call: retries the connection, then translates decoded
/// event lines into fragments, logging every fragment as it is yielded and
/// finalizing the log exactly once.
pub struct StreamCall {
    pub policy: RetryPolicy,
    pub attempts: u64,
    pub log: RequestLog,
    pub phase: StreamPhase,
    pub translator: StreamTranslator,
}

impl StreamCall {
    pub open spec fn wf(self) -> bool {
        &&& self.policy.wf()
        &&& self.log.wf()
        &&& self.translator.wf()
        &&& (self.phase == StreamPhase::Connecting ==> {
            &&& self.attempts < self.policy.max_attempts
            &&& !self.log.closed()
            &&& self.translator.state == StreamState::Active
            &&& self.translator.emitted@ == Seq::<StreamFragment>::empty()
        })
        &&& (self.phase == StreamPhase::Streaming ==> {
            &&& self.translator.state != StreamState::Failed
            &&& (self.log.closed() <==> self.translator.state == StreamState::Finished)
        })
    }

    /// Opens the call with its payload recorded; the stream flag is already
    /// set on the payload the caller built.
    pub fn start(policy: RetryPolicy, payload: JsonValue) -> (r: StreamCall)
        requires
            policy.wf(),
        ensures
            r.wf(),
            r.policy == policy,
            r.attempts == 0,
            r.phase == StreamPhase::Connecting,
            r.log.payload == payload,
            r.log.events@ =~= Seq::<LogEvent>::empty(),
            r.translator.emitted@ =~= Seq::<StreamFragment>::empty(),
    {
        StreamCall {
            policy,
            attempts: 0,
            log: RequestLog::start(payload),
            phase: StreamPhase::Connecting,
            translator: StreamTranslator::new(),
        }
    }

    /// Feeds the outcome of one attempt to open the stream.
    pub fn on_connect(&mut self, e: ConnectEvent) -> (r: ConnectStep)
        requires
            old(self).wf(),
            old(self).phase == StreamPhase::Connecting,
        ensures
            final(self).wf(),
            final(self).policy == old(self).policy,
            final(self).log.payload == old(self).log.payload,
            final(self).translator == old(self).translator,
            e is Opened ==> {
                &&& r is Streaming
                &&& final(self).phase == StreamPhase::Streaming
                &&& final(self).log.events@ == old(self).log.events@
            },
            e matches ConnectEvent::Transient(m) ==> (if old(self).attempts + 1 < old(self).policy.max_attempts {
                &&& r is Retry
                &&& final(self).phase == StreamPhase::Connecting
                &&& final(self).attempts == old(self).attempts + 1
                &&& final(self).log.events@ == old(self).log.events@
            } else {
                &&& r == ConnectStep::Fail(ProviderError::Transport(m))
                &&& final(self).phase == StreamPhase::Done
                &&& final(self).log.events@ == old(self).log.events@.push(
                    LogEvent::Failure { kind: ErrorKind::Transport },
                )
            }),
            e matches ConnectEvent::Status(c, m) ==> (if c == StatusClass::Retryable && old(self).attempts + 1 < old(self).policy.max_attempts {
                &&& r is Retry
                &&& final(self).phase == StreamPhase::Connecting
                &&& final(self).attempts == old(self).attempts + 1
                &&& final(self).log.events@ == old(self).log.events@
            } else {
                &&& r == ConnectStep::Fail(ProviderError::Status(c, m))
                &&& final(self).phase == StreamPhase::Done
                &&& final(self).log.events@ == old(self).log.events@.push(
                    LogEvent::Failure { kind: ErrorKind::Status },
                )
            }),
    {
        match e {
            ConnectEvent::Opened => {
                self.phase = StreamPhase::Streaming;
                ConnectStep::Streaming
            },
            ConnectEvent::Transient(m) => {
                self.attempts = self.attempts + 1;
                if self.attempts < self.policy.max_attempts {
                    ConnectStep::Retry
                } else {
                    self.log.fail(ErrorKind::Transport);
                    self.phase = StreamPhase::Done;
                    ConnectStep::Fail(ProviderError::Transport(m))
                }
            },
            ConnectEvent::Status(c, m) => {
                self.attempts = self.attempts + 1;
                let retryable = matches!(c, StatusClass::Retryable);
                if retryable && self.attempts < self.policy.max_attempts {
                    ConnectStep::Retry
                } else {
                    self.log.fail(ErrorKind::Status);
                    self.phase = StreamPhase::Done;
                    ConnectStep::Fail(ProviderError::Status(c, m))
                }
            },
        }
    }

    /// Feeds one decoded event line of the open stream. A fragment is logged
    /// before it is yielded; a decode failure closes the log (if the final
    /// write has not already closed it) and ends the stream.
    pub fn on_line(&mut self, line: &JsonValue) -> (r: Result<
        Option<StreamFragment>,
        ProviderError,
    >)
        requires
            old(self).wf(),
            old(self).phase == StreamPhase::Streaming,
        ensures
            final(self).wf(),
            final(self).policy == old(self).policy,
            final(self).log.payload == old(self).log.payload,
            r is Ok ==> final(self).phase == StreamPhase::Streaming,
            r matches Ok(Some(f)) ==> {
                &&& final(self).translator.emitted@ == old(self).translator.emitted@.push(f)
                &&& final(self).log.events@ == old(self).log.events@.push(
                    LogEvent::Write { usage: fragment_usage(f) },
                )
            },
            r matches Ok(None) ==> {
                &&& final(self).translator.emitted@ == old(self).translator.emitted@
                &&& final(self).log.events@ == old(self).log.events@
            },
            r matches Err(e) ==> {
                &&& e is Decode
                &&& final(self).phase == StreamPhase::Done
                &&& final(self).log.closed()
            },
            old(self).translator.state == StreamState::Active && r is Err ==> final(self).log.events@ == old(self).log.events@.push(
                LogEvent::Failure { kind: ErrorKind::Decode },
            ),
            old(self).translator.state == StreamState::Finished ==> (r is Err && final(self).log.events@ == old(self).log.events@),
            old(self).translator.state == StreamState::Active ==> (r is Err <==> !event_ok(
                *line,
            )),
            old(self).translator.state == StreamState::Active && event_is_noise(*line) ==> r
                matches Ok(None),
            old(self).translator.state == StreamState::Active && event_is_fragment(*line) ==> (r
                matches Ok(Some(f)) && {
                &&& f.usage is None
                &&& f.message.role == event_message_role(*line)
                &&& f.message.content@ == event_message_content(*line)
                &&& !final(self).log.closed()
            }),
            old(self).translator.state == StreamState::Active && event_is_final(*line) ==> (r
                matches Ok(Some(f)) && {
                &&& f.usage matches Some(pu) && pu.model@ == event_model(*line) && pu.model@.len()
                    > 0 && pu.usage == event_usage(*line)
                &&& f.message.role == event_message_role(*line)
                &&& f.message.content@ == event_message_content(*line)
                &&& final(self).log.closed()
            }),
    {
        let was_finished = matches!(self.translator.state, StreamState::Finished);
        match self.translator.on_event(line) {
            Ok(None) => Ok(None),
            Ok(Some(f)) => {
                let usage = match &f.usage {
                    Some(pu) => Some(pu.usage),
                    None => None,
                };
                self.log.write(usage);
                Ok(Some(f))
            },
            Err(e) => {
                if !was_finished {
                    self.log.fail(ErrorKind::Decode);
                }
                self.phase = StreamPhase::Done;
                Err(e)
            },
        }
    }

    /// A line of the open stream could not even be read as JSON: the stream
    /// fails with a decode error carrying the parser's detail, and the log
    /// is closed unless the final write already closed it.
    pub fn on_line_unreadable(&mut self, detail: String) -> (e: ProviderError)
        requires
            old(self).wf(),
            old(self).phase == StreamPhase::Streaming,
        ensures
            final(self).wf(),
            final(self).policy == old(self).policy,
            final(self).log.payload == old(self).log.payload,
            final(self).phase == StreamPhase::Done,
            final(self).log.closed(),
            e == ProviderError::Decode(detail),
            old(self).translator.state == StreamState::Finished ==> final(self).log.events@ == old(
                self,
            ).log.events@,
            old(self).translator.state != StreamState::Finished ==> final(self).log.events@ == old(
                self,
            ).log.events@.push(LogEvent::Failure { kind: ErrorKind::Decode }),
    {
        if !matches!(self.translator.state, StreamState::Finished) {
            self.log.fail(ErrorKind::Decode);
        }
        self.phase = StreamPhase::Done;
        ProviderError::Decode(detail)
    }

    /// The underlying byte stream ended cleanly. If the final usage-bearing
    /// fragment never arrived, the record is closed as a decode failure, so
    /// that every call still ends with exactly one log outcome.
    pub fn on_end(&mut self)
        requires
            old(self).wf(),
            old(self).phase == StreamPhase::Streaming,
        ensures
            final(self).wf(),
            final(self).policy == old(self).policy,
            final(self).log.payload == old(self).log.payload,
            final(self).translator == old(self).translator,
            final(self).phase == StreamPhase::Done,
            final(self).log.closed(),
            old(self).translator.state == StreamState::Finished ==> final(self).log.events@ == old(self).log.events@,
            old(self).translator.state == StreamState::Active ==> final(self).log.events@ == old(self).log.events@.push(LogEvent::Failure { kind: ErrorKind::Decode }),
    {
        if matches!(self.translator.state, StreamState::Active) {
            self.log.fail(ErrorKind::Decode);
        }
        self.phase = StreamPhase::Done;
    }
}

// ---------------------------------------------------------------------------
// The provider facade
// ---------------------------------------------------------------------------

/// How the transport should authenticate.
pub enum AuthMethod {
    BearerToken(String),
    NoAuth,
}

/// One configuration key the provider reads at construction.
pub struct ConfigKey {
    pub name: String,
    pub required: bool,
    pub secret: bool,
    pub default: Option<String>,
}

/// What this provider is called and how it is configured.
pub struct ProviderMetadata {
    pub name: String,
    pub display_name: String,
    pub description: String,
    pub default_model: String,
    pub known_models: Vec<String>,
    pub doc_url: String,
    pub config_keys: Vec<ConfigKey>,
    pub allows_unlisted_models: bool,
}

pub open spec fn host_ok(host: Option<String>) -> bool {
    match host {
        Some(h) => h@.len() > 0,
        None => true,
    }
}

pub open spec fn timeout_ok(timeout_secs: Option<u64>) -> bool {
    match timeout_secs {
        Some(t) => t > 0,
        None => true,
    }
}

pub open spec fn effective_host(host: Option<String>) -> Seq<char> {
    match host {
        Some(h) => h@,
        None => "http://console.insightstream.ru"@,
    }
}

pub open spec fn effective_timeout(timeout_secs: Option<u64>) -> int {
    match timeout_secs {
        Some(t) => t as int,
        None => 600,
    }
}

pub open spec fn auth_of(api_key: Option<String>) -> AuthMethod {
    match api_key {
        Some(k) => if k@.len() > 0 {
            AuthMethod::BearerToken(k)
        } else {
            AuthMethod::NoAuth
        },
        None => AuthMethod::NoAuth,
    }
}

/// The provider facade: the configuration one construction fixed, shared
/// by every call made through it.
pub struct CompressaProvider {
    pub host: String,
    pub auth: AuthMethod,
    pub timeout_secs: u64,
    pub model: ModelConfig,
}

impl CompressaProvider {
    pub open spec fn wf(self) -> bool {
        &&& self.host@.len() > 0
        &&& self.timeout_secs > 0
    }

    /// Builds the provider from configuration read once by the caller:
    /// host and timeout fall back to their defaults, an empty or absent
    /// credential means no authentication, an empty host or a zero timeout
    /// is a configuration error.
    pub fn from_env(
        model: ModelConfig,
        host: Option<String>,
        api_key: Option<String>,
        timeout_secs: Option<u64>,
    ) -> (r: Result<CompressaProvider, ProviderError>)
        ensures
            r is Ok <==> (host_ok(host) && timeout_ok(timeout_secs)),
            r matches Ok(p) ==> {
                &&& p.wf()
                &&& p.host@ == effective_host(host)
                &&& p.timeout_secs as int == effective_timeout(timeout_secs)
                &&& p.auth == auth_of(api_key)
                &&& p.model == model
            },
            r matches Err(e) ==> e is Config,
    {
        let host_s: String = match host {
            Some(h) => {
                if h.as_str().is_empty() {
                    return Err(ProviderError::Config("host must not be empty".to_owned()));
                }
                h
            },
            None => {
                proof {
                    reveal_strlit("http://console.insightstream.ru");
                }
                "http://console.insightstream.ru".to_owned()
            },
        };
        let timeout: u64 = match timeout_secs {
            Some(t) => {
                if t == 0 {
                    return Err(
                        ProviderError::Config("timeout must be a positive number of seconds".to_owned()),
                    );
                }
                t
            },
            None => 600,
        };
        let auth: AuthMethod = match api_key {
            Some(k) => {
                if k.as_str().is_empty() {
                    AuthMethod::NoAuth
                } else {
                    AuthMethod::BearerToken(k)
                }
            },
            None => AuthMethod::NoAuth,
        };
        Ok(CompressaProvider { host: host_s, auth, timeout_secs: timeout, model })
    }

    pub fn get_name(&self) -> (r: &'static str)
        ensures
            r@ == "compressa"@,
    {
        "compressa"
    }

    pub fn get_model_config(&self) -> (r: ModelConfig)
        ensures
            r == self.model,
    {
        ModelConfig { model_name: self.model.model_name.clone() }
    }

    pub fn supports_streaming(&self) -> (r: bool)
        ensures
            r,
    {
        true
    }

    /// Starts one batch completion call: builds the request payload once,
    /// opens its log, and hands back the call whose decisions the caller
    /// drives by feeding transport outcomes to `on_event`.
    pub fn begin_complete(
        &self,
        model_config: &ModelConfig,
        system: &str,
        messages: &[Message],
        tools: &[ToolDef],
        policy: RetryPolicy,
    ) -> (r: CompleteCall)
        requires
            policy.wf(),
        ensures
            r.wf(),
            !r.done,
            r.attempts == 0,
            r.policy == policy,
            r.log.events@ =~= Seq::<LogEvent>::empty(),
            request_matches(r.log.payload, model_config.model_name@, system@, messages@, tools@),
            !has_field(r.log.payload, "stream"@),
    {
        let payload = create_responses_request(model_config, system, messages, tools);
        CompleteCall::start(policy, payload)
    }

    /// Starts one streaming call against the provider's own model: builds
    /// the payload, sets the streaming flag on it after construction, and
    /// opens the log.
    pub fn begin_stream(
        &self,
        system: &str,
        messages: &[Message],
        tools: &[ToolDef],
        policy: RetryPolicy,
    ) -> (r: StreamCall)
        requires
            policy.wf(),
        ensures
            r.wf(),
            r.attempts == 0,
            r.policy == policy,
            r.phase == StreamPhase::Connecting,
            r.log.events@ =~= Seq::<LogEvent>::empty(),
            r.translator.emitted@ =~= Seq::<StreamFragment>::empty(),
            request_matches(r.log.payload, self.model.model_name@, system@, messages@, tools@),
            has_field(r.log.payload, "stream"@),
            field(r.log.payload, "stream"@) == JsonValue::Bool(true),
    {
        let mut payload = create_responses_request(&self.model, system, messages, tools);
        set_stream_flag(&mut payload);
        proof {
            reveal_strlit("model");
            reveal_strlit("instructions");
            reveal_strlit("input");
            reveal_strlit("tools");
            reveal_strlit("stream");
            assert("model"@.len() == 5);
            assert("instructions"@.len() == 12);
            assert("input"@.len() == 5);
            assert("tools"@.len() == 5);
            assert("stream"@.len() == 6);
            assert("model"@ != "stream"@);
            assert("instructions"@ != "stream"@);
            assert("input"@ != "stream"@);
            assert("tools"@ != "stream"@);
            assert(request_matches(
                payload,
                self.model.model_name@,
                system@,
                messages@,
                tools@,
            ));
        }
        StreamCall::start(policy, payload)
    }

    /// The provider's static description: its names, default model,
    /// documentation address, and the three configuration keys it reads.
    pub fn metadata() -> (r: ProviderMetadata)
        ensures
            r.name@ == "compressa"@,
            r.display_name@ == "Compressa"@,
            r.description@ == "Responses API compatible provider"@,
            r.default_model@ == "compressa/default"@,
            r.known_models@.len() == 0,
            r.doc_url@ == "http://console.insightstream.ru"@,
            r.allows_unlisted_models,
            r.config_keys@.len() == 3,
            r.config_keys@[0].name@ == "COMPRESSA_API_KEY"@,
            !r.config_keys@[0].required,
            r.config_keys@[0].secret,
            r.config_keys@[0].default is None,
            r.config_keys@[1].name@ == "COMPRESSA_HOST"@,
            r.config_keys@[1].required,
            !r.config_keys@[1].secret,
            r.config_keys@[1].default matches Some(d) && d@ == "http://console.insightstream.ru"@,
            r.config_keys@[2].name@ == "COMPRESSA_TIMEOUT"@,
            !r.config_keys@[2].required,
            !r.config_keys@[2].secret,
            r.config_keys@[2].default matches Some(d) && d@ == "600"@,
    {
        let mut config_keys: Vec<ConfigKey> = Vec::new();
        config_keys.push(
            ConfigKey {
                name: "COMPRESSA_API_KEY".to_owned(),
                required: false,
                secret: true,
                default: None,
            },
        );
        config_keys.push(
            ConfigKey {
                name: "COMPRESSA_HOST".to_owned(),
                required: true,
                secret: false,
                default: Some("http://console.insightstream.ru".to_owned()),
            },
        );
        config_keys.push(
            ConfigKey {
                name: "COMPRESSA_TIMEOUT".to_owned(),
                required: false,
                secret: false,
                default: Some("600".to_owned()),
            },
        );
        ProviderMetadata {
            name: "compressa".to_owned(),
            display_name: "Compressa".to_owned(),
            description: "Responses API compatible provider".to_owned(),
            default_model: "compressa/default".to_owned(),
            known_models: Vec::new(),
            doc_url: "http://console.insightstream.ru".to_owned(),
            config_keys,
            allows_unlisted_models: true,
        }
    }
}

} // verus!
