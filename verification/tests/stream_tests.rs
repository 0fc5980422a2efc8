use compressa::json::JsonValue;
use compressa::model::{ProviderError, Role};
use compressa::streaming::StreamTranslator;

fn obj(entries: Vec<(&str, JsonValue)>) -> JsonValue {
    JsonValue::Obj(entries.into_iter().map(|(k, v)| (k.to_string(), v)).collect())
}

fn text(s: &str) -> JsonValue {
    JsonValue::Str(s.to_string())
}

fn fragment_event(content: &str) -> JsonValue {
    obj(vec![(
        "output",
        JsonValue::Arr(vec![obj(vec![("role", text("assistant")), ("content", text(content))])]),
    )])
}

fn final_event(model: &str, content: &str, input: i64, output: i64) -> JsonValue {
    obj(vec![
        (
            "output",
            JsonValue::Arr(vec![obj(vec![
                ("role", text("assistant")),
                ("content", text(content)),
            ])]),
        ),
        (
            "usage",
            obj(vec![
                ("input_tokens", JsonValue::Int(input)),
                ("output_tokens", JsonValue::Int(output)),
            ]),
        ),
        ("model", text(model)),
    ])
}

#[test]
fn fragments_come_out_in_order_and_only_the_last_carries_usage() {
    let mut translator = StreamTranslator::new();
    let mut contents: Vec<String> = Vec::new();
    let mut usages: Vec<bool> = Vec::new();
    for event in [
        fragment_event("F1"),
        fragment_event("F2"),
        fragment_event("F3"),
        final_event("m1", "F4", 5, 7),
    ] {
        let fragment = translator.on_event(&event).expect("well-formed event").expect("fragment");
        contents.push(fragment.message.content.clone());
        usages.push(fragment.usage.is_some());
    }
    assert_eq!(contents, vec!["F1", "F2", "F3", "F4"]);
    assert_eq!(usages, vec![false, false, false, true]);
}

#[test]
fn the_final_fragment_carries_model_and_counts() {
    let mut translator = StreamTranslator::new();
    let fragment = translator.on_event(&final_event("m9", "done", 3, 1)).unwrap().unwrap();
    assert_eq!(fragment.message.role, Role::Assistant);
    assert_eq!(fragment.message.content, "done");
    let pu = fragment.usage.expect("final fragment carries usage");
    assert_eq!(pu.model, "m9");
    assert_eq!(pu.usage.input_tokens, 3);
    assert_eq!(pu.usage.output_tokens, 1);
}

#[test]
fn keep_alive_noise_yields_nothing() {
    let mut translator = StreamTranslator::new();
    assert!(translator.on_event(&obj(vec![])).unwrap().is_none());
    assert!(translator.on_event(&obj(vec![("type", text("ping"))])).unwrap().is_none());
    let fragment = translator.on_event(&fragment_event("after noise")).unwrap().unwrap();
    assert_eq!(fragment.message.content, "after noise");
}

#[test]
fn an_event_after_the_final_fragment_is_an_error() {
    let mut translator = StreamTranslator::new();
    translator.on_event(&final_event("m1", "end", 1, 1)).unwrap();
    assert!(matches!(
        translator.on_event(&fragment_event("too late")),
        Err(ProviderError::Decode(_))
    ));
}

#[test]
fn a_non_object_line_is_a_decode_error() {
    let mut translator = StreamTranslator::new();
    assert!(matches!(
        translator.on_event(&JsonValue::Str("not an event".to_string())),
        Err(ProviderError::Decode(_))
    ));
}

#[test]
fn usage_without_output_is_a_decode_error() {
    let mut translator = StreamTranslator::new();
    let event = obj(vec![(
        "usage",
        obj(vec![("input_tokens", JsonValue::Int(1)), ("output_tokens", JsonValue::Int(1))]),
    )]);
    assert!(matches!(translator.on_event(&event), Err(ProviderError::Decode(_))));
}

#[test]
fn a_final_event_without_model_is_a_decode_error() {
    let mut translator = StreamTranslator::new();
    let event = obj(vec![
        (
            "output",
            JsonValue::Arr(vec![obj(vec![("role", text("assistant")), ("content", text("x"))])]),
        ),
        (
            "usage",
            obj(vec![("input_tokens", JsonValue::Int(1)), ("output_tokens", JsonValue::Int(1))]),
        ),
    ]);
    assert!(matches!(translator.on_event(&event), Err(ProviderError::Decode(_))));
}
