use compressa::json::JsonValue;
use compressa::model::{LogEvent, ModelConfig, ProviderError, Role, StatusClass};
use compressa::provider::{AuthMethod, CompleteCall, CompleteStep, CompressaProvider, ConnectEvent,
    ConnectStep, RetryPolicy, StreamCall, TransportEvent};

fn obj(entries: Vec<(&str, JsonValue)>) -> JsonValue {
    JsonValue::Obj(entries.into_iter().map(|(k, v)| (k.to_string(), v)).collect())
}

fn text(s: &str) -> JsonValue {
    JsonValue::Str(s.to_string())
}

fn good_envelope() -> JsonValue {
    obj(vec![
        ("model", text("m1")),
        (
            "output",
            JsonValue::Arr(vec![obj(vec![
                ("role", text("assistant")),
                ("content", text("hello")),
            ])]),
        ),
        (
            "usage",
            obj(vec![
                ("input_tokens", JsonValue::Int(3)),
                ("output_tokens", JsonValue::Int(1)),
            ]),
        ),
    ])
}

fn final_line(content: &str) -> JsonValue {
    obj(vec![
        (
            "output",
            JsonValue::Arr(vec![obj(vec![
                ("role", text("assistant")),
                ("content", text(content)),
            ])]),
        ),
        (
            "usage",
            obj(vec![
                ("input_tokens", JsonValue::Int(2)),
                ("output_tokens", JsonValue::Int(4)),
            ]),
        ),
        ("model", text("m1")),
    ])
}

fn fragment_line(content: &str) -> JsonValue {
    obj(vec![(
        "output",
        JsonValue::Arr(vec![obj(vec![("role", text("assistant")), ("content", text(content))])]),
    )])
}

#[test]
fn transient_failures_below_the_maximum_still_succeed() {
    let mut call = CompleteCall::start(RetryPolicy::new(3), JsonValue::Null);
    assert!(matches!(
        call.on_event(TransportEvent::Transient("connection reset".to_string())),
        CompleteStep::Retry
    ));
    assert!(matches!(
        call.on_event(TransportEvent::Transient("timeout".to_string())),
        CompleteStep::Retry
    ));
    match call.on_event(TransportEvent::Body(good_envelope())) {
        CompleteStep::Done(Ok((message, pu))) => {
            assert_eq!(message.role, Role::Assistant);
            assert_eq!(message.content, "hello");
            assert_eq!(pu.model, "m1");
            assert_eq!(pu.usage.input_tokens, 3);
            assert_eq!(pu.usage.output_tokens, 1);
        },
        _ => panic!("two transient failures below the maximum must not fail the call"),
    }
    assert_eq!(call.log.events.len(), 1);
    match &call.log.events[0] {
        LogEvent::Write { usage: Some(u) } => {
            assert_eq!(u.input_tokens, 3);
            assert_eq!(u.output_tokens, 1);
        },
        _ => panic!("the log must hold exactly one final success write"),
    }
}

#[test]
fn retry_exhaustion_surfaces_the_transport_error() {
    let mut call = CompleteCall::start(RetryPolicy::new(2), JsonValue::Null);
    assert!(matches!(
        call.on_event(TransportEvent::Transient("one".to_string())),
        CompleteStep::Retry
    ));
    match call.on_event(TransportEvent::Transient("two".to_string())) {
        CompleteStep::Done(Err(ProviderError::Transport(m))) => assert_eq!(m, "two"),
        _ => panic!("exhausted retries must surface the last transport error"),
    }
    assert!(matches!(call.log.events[..], [LogEvent::Failure { .. }]));
}

#[test]
fn a_fatal_status_is_not_retried() {
    let mut call = CompleteCall::start(RetryPolicy::new(5), JsonValue::Null);
    match call.on_event(TransportEvent::Status(StatusClass::Fatal, "401 unauthorized".to_string()))
    {
        CompleteStep::Done(Err(ProviderError::Status(StatusClass::Fatal, m))) => {
            assert_eq!(m, "401 unauthorized")
        },
        _ => panic!("a fatal status must end the call at once"),
    }
}

#[test]
fn a_retryable_status_is_retried() {
    let mut call = CompleteCall::start(RetryPolicy::new(2), JsonValue::Null);
    assert!(matches!(
        call.on_event(TransportEvent::Status(StatusClass::Retryable, "429".to_string())),
        CompleteStep::Retry
    ));
}

#[test]
fn an_unparseable_body_is_a_decode_error_and_never_retried() {
    let mut call = CompleteCall::start(RetryPolicy::new(5), JsonValue::Null);
    match call.on_event(TransportEvent::Unparseable("expected value at line 1".to_string())) {
        CompleteStep::Done(Err(ProviderError::Decode(m))) => {
            assert_eq!(m, "expected value at line 1")
        },
        _ => panic!("an unparseable body must surface as a decode error"),
    }
}

#[test]
fn a_malformed_envelope_fails_with_a_decode_error_and_one_log_outcome() {
    let mut call = CompleteCall::start(RetryPolicy::new(3), JsonValue::Null);
    let malformed = obj(vec![("model", text("m1"))]);
    assert!(matches!(
        call.on_event(TransportEvent::Body(malformed)),
        CompleteStep::Done(Err(ProviderError::Decode(_)))
    ));
    assert!(matches!(call.log.events[..], [LogEvent::Failure { .. }]));
}

#[test]
fn a_stream_retries_the_connection_then_logs_each_fragment() {
    let mut call = StreamCall::start(RetryPolicy::new(3), JsonValue::Null);
    assert!(matches!(
        call.on_connect(ConnectEvent::Transient("reset".to_string())),
        ConnectStep::Retry
    ));
    assert!(matches!(call.on_connect(ConnectEvent::Opened), ConnectStep::Streaming));
    let f1 = call.on_line(&fragment_line("F1")).unwrap().unwrap();
    assert!(f1.usage.is_none());
    let f2 = call.on_line(&fragment_line("F2")).unwrap().unwrap();
    assert!(f2.usage.is_none());
    let f3 = call.on_line(&final_line("F3")).unwrap().unwrap();
    assert_eq!(f3.usage.as_ref().unwrap().model, "m1");
    call.on_end();
    assert_eq!(call.log.events.len(), 3);
    assert!(matches!(call.log.events[0], LogEvent::Write { usage: None }));
    assert!(matches!(call.log.events[1], LogEvent::Write { usage: None }));
    match &call.log.events[2] {
        LogEvent::Write { usage: Some(u) } => {
            assert_eq!(u.input_tokens, 2);
            assert_eq!(u.output_tokens, 4);
        },
        _ => panic!("the final fragment's write must carry the usage"),
    }
}

#[test]
fn a_stream_ending_without_a_final_fragment_still_closes_the_log() {
    let mut call = StreamCall::start(RetryPolicy::new(1), JsonValue::Null);
    assert!(matches!(call.on_connect(ConnectEvent::Opened), ConnectStep::Streaming));
    call.on_line(&fragment_line("only")).unwrap();
    call.on_end();
    assert_eq!(call.log.events.len(), 2);
    assert!(matches!(call.log.events[1], LogEvent::Failure { .. }));
}

#[test]
fn a_malformed_line_ends_the_stream_with_one_failure_outcome() {
    let mut call = StreamCall::start(RetryPolicy::new(1), JsonValue::Null);
    assert!(matches!(call.on_connect(ConnectEvent::Opened), ConnectStep::Streaming));
    call.on_line(&fragment_line("F1")).unwrap();
    assert!(matches!(call.on_line(&JsonValue::Frac), Err(ProviderError::Decode(_))));
    assert_eq!(call.log.events.len(), 2);
    assert!(matches!(call.log.events[1], LogEvent::Failure { .. }));
}

#[test]
fn connect_exhaustion_fails_with_the_status_error() {
    let mut call = StreamCall::start(RetryPolicy::new(1), JsonValue::Null);
    match call.on_connect(ConnectEvent::Status(StatusClass::Retryable, "429".to_string())) {
        ConnectStep::Fail(ProviderError::Status(StatusClass::Retryable, m)) => {
            assert_eq!(m, "429")
        },
        _ => panic!("the single permitted attempt was spent"),
    }
}

#[test]
fn from_env_applies_defaults() {
    let provider = CompressaProvider::from_env(
        ModelConfig { model_name: "compressa/default".to_string() },
        None,
        None,
        None,
    )
    .unwrap();
    assert_eq!(provider.host, "http://console.insightstream.ru");
    assert_eq!(provider.timeout_secs, 600);
    assert!(matches!(provider.auth, AuthMethod::NoAuth));
    assert_eq!(provider.model.model_name, "compressa/default");
}

#[test]
fn from_env_takes_the_given_settings() {
    let provider = CompressaProvider::from_env(
        ModelConfig { model_name: "m".to_string() },
        Some("https://example.test".to_string()),
        Some("bearer-token-for-tests".to_string()),
        Some(30),
    )
    .unwrap();
    assert_eq!(provider.host, "https://example.test");
    assert_eq!(provider.timeout_secs, 30);
    assert!(matches!(provider.auth, AuthMethod::BearerToken(ref k) if k == "bearer-token-for-tests"));
}

#[test]
fn from_env_treats_an_empty_credential_as_no_auth() {
    let provider = CompressaProvider::from_env(
        ModelConfig { model_name: "m".to_string() },
        None,
        Some("".to_string()),
        None,
    )
    .unwrap();
    assert!(matches!(provider.auth, AuthMethod::NoAuth));
}

#[test]
fn from_env_rejects_an_empty_host() {
    let r = CompressaProvider::from_env(
        ModelConfig { model_name: "m".to_string() },
        Some("".to_string()),
        None,
        None,
    );
    assert!(matches!(r, Err(ProviderError::Config(_))));
}

#[test]
fn from_env_rejects_a_zero_timeout() {
    let r = CompressaProvider::from_env(
        ModelConfig { model_name: "m".to_string() },
        None,
        None,
        Some(0),
    );
    assert!(matches!(r, Err(ProviderError::Config(_))));
}

#[test]
fn the_provider_names_itself_and_its_model() {
    let provider = CompressaProvider::from_env(
        ModelConfig { model_name: "m7".to_string() },
        None,
        None,
        None,
    )
    .unwrap();
    assert_eq!(provider.get_name(), "compressa");
    assert!(provider.supports_streaming());
    assert_eq!(provider.get_model_config().model_name, "m7");
}

#[test]
fn metadata_describes_the_provider_and_its_keys() {
    let m = CompressaProvider::metadata();
    assert_eq!(m.name, "compressa");
    assert_eq!(m.display_name, "Compressa");
    assert_eq!(m.description, "Responses API compatible provider");
    assert_eq!(m.default_model, "compressa/default");
    assert!(m.known_models.is_empty());
    assert_eq!(m.doc_url, "http://console.insightstream.ru");
    assert!(m.allows_unlisted_models);
    let names: Vec<&str> = m.config_keys.iter().map(|k| k.name.as_str()).collect();
    assert_eq!(names, vec!["COMPRESSA_API_KEY", "COMPRESSA_HOST", "COMPRESSA_TIMEOUT"]);
    assert!(m.config_keys[0].secret);
    assert!(m.config_keys[1].required);
    assert_eq!(m.config_keys[2].default.as_deref(), Some("600"));
}
