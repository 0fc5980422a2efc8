use compressa::decode::{decode_envelope, supported_models};
use compressa::json::JsonValue;
use compressa::model::{ProviderError, Role};

fn obj(entries: Vec<(&str, JsonValue)>) -> JsonValue {
    JsonValue::Obj(entries.into_iter().map(|(k, v)| (k.to_string(), v)).collect())
}

fn text(s: &str) -> JsonValue {
    JsonValue::Str(s.to_string())
}

fn usage(input: i64, output: i64) -> JsonValue {
    obj(vec![
        ("input_tokens", JsonValue::Int(input)),
        ("output_tokens", JsonValue::Int(output)),
    ])
}

fn item(role: &str, content: &str) -> JsonValue {
    obj(vec![("role", text(role)), ("content", text(content))])
}

fn envelope(model: &str, items: Vec<JsonValue>, u: JsonValue) -> JsonValue {
    obj(vec![("model", text(model)), ("output", JsonValue::Arr(items)), ("usage", u)])
}

#[test]
fn concrete_scenario_decodes_hello() {
    let env = envelope("m1", vec![item("assistant", "hello")], usage(3, 1));
    let (message, pu) = decode_envelope(&env).expect("well-formed envelope must decode");
    assert_eq!(message.role, Role::Assistant);
    assert_eq!(message.content, "hello");
    assert_eq!(pu.model, "m1");
    assert_eq!(pu.usage.input_tokens, 3);
    assert_eq!(pu.usage.output_tokens, 1);
}

#[test]
fn usage_always_names_a_nonempty_model() {
    let env = envelope("backend/real-model", vec![item("assistant", "x")], usage(0, 0));
    let (_, pu) = decode_envelope(&env).unwrap();
    assert!(!pu.model.is_empty());
}

#[test]
fn several_output_items_join_in_order() {
    let env = envelope(
        "m1",
        vec![item("assistant", "hel"), item("assistant", "lo"), item("assistant", "!")],
        usage(1, 2),
    );
    let (message, _) = decode_envelope(&env).unwrap();
    assert_eq!(message.role, Role::Assistant);
    assert_eq!(message.content, "hello!");
}

#[test]
fn missing_model_is_a_decode_error() {
    let env = obj(vec![
        ("output", JsonValue::Arr(vec![item("assistant", "x")])),
        ("usage", usage(1, 1)),
    ]);
    assert!(matches!(decode_envelope(&env), Err(ProviderError::Decode(_))));
}

#[test]
fn wrong_model_type_is_a_decode_error() {
    let env = obj(vec![
        ("model", JsonValue::Int(7)),
        ("output", JsonValue::Arr(vec![item("assistant", "x")])),
        ("usage", usage(1, 1)),
    ]);
    assert!(matches!(decode_envelope(&env), Err(ProviderError::Decode(_))));
}

#[test]
fn empty_model_is_a_decode_error() {
    let env = envelope("", vec![item("assistant", "x")], usage(1, 1));
    assert!(matches!(decode_envelope(&env), Err(ProviderError::Decode(_))));
}

#[test]
fn non_object_envelope_is_a_decode_error() {
    assert!(matches!(decode_envelope(&JsonValue::Null), Err(ProviderError::Decode(_))));
}

#[test]
fn empty_output_is_a_decode_error() {
    let env = envelope("m1", vec![], usage(1, 1));
    assert!(matches!(decode_envelope(&env), Err(ProviderError::Decode(_))));
}

#[test]
fn unknown_role_is_a_decode_error() {
    let env = envelope("m1", vec![item("oracle", "x")], usage(1, 1));
    assert!(matches!(decode_envelope(&env), Err(ProviderError::Decode(_))));
}

#[test]
fn missing_usage_is_a_decode_error() {
    let env = obj(vec![
        ("model", text("m1")),
        ("output", JsonValue::Arr(vec![item("assistant", "x")])),
    ]);
    assert!(matches!(decode_envelope(&env), Err(ProviderError::Decode(_))));
}

#[test]
fn fractional_token_count_is_a_decode_error() {
    let env = envelope(
        "m1",
        vec![item("assistant", "x")],
        obj(vec![("input_tokens", JsonValue::Frac), ("output_tokens", JsonValue::Int(1))]),
    );
    assert!(matches!(decode_envelope(&env), Err(ProviderError::Decode(_))));
}

#[test]
fn negative_token_count_is_a_decode_error() {
    let env = envelope("m1", vec![item("assistant", "x")], usage(-1, 1));
    assert!(matches!(decode_envelope(&env), Err(ProviderError::Decode(_))));
}

#[test]
fn catalog_is_sorted_and_keeps_duplicates() {
    let catalog = obj(vec![(
        "data",
        JsonValue::Arr(vec![
            obj(vec![("id", text("zeta"))]),
            obj(vec![("id", text("alpha"))]),
            obj(vec![("name", text("no id here"))]),
            obj(vec![("id", text("alpha"))]),
            obj(vec![("id", text("beta"))]),
        ]),
    )]);
    let models = supported_models(&catalog).expect("catalog with data array must list");
    assert_eq!(models, vec!["alpha", "alpha", "beta", "zeta"]);
}

#[test]
fn listing_twice_returns_the_identical_list() {
    let catalog = obj(vec![(
        "data",
        JsonValue::Arr(vec![
            obj(vec![("id", text("m2"))]),
            obj(vec![("id", text("m1"))]),
            obj(vec![("id", text("m3"))]),
        ]),
    )]);
    let first = supported_models(&catalog).unwrap();
    let second = supported_models(&catalog).unwrap();
    assert_eq!(first, second);
    assert_eq!(first, vec!["m1", "m2", "m3"]);
}

#[test]
fn catalog_without_data_is_a_schema_error() {
    let catalog = obj(vec![("models", JsonValue::Arr(vec![]))]);
    match supported_models(&catalog) {
        Err(ProviderError::Schema(m)) => assert_eq!(m, "missing data field in JSON response"),
        other => panic!("expected a schema error, got {:?}", other.is_ok()),
    }
}

#[test]
fn catalog_with_non_array_data_is_a_schema_error() {
    let catalog = obj(vec![("data", JsonValue::Int(1))]);
    assert!(matches!(supported_models(&catalog), Err(ProviderError::Schema(_))));
}

#[test]
fn empty_catalog_lists_nothing() {
    let catalog = obj(vec![("data", JsonValue::Arr(vec![]))]);
    assert_eq!(supported_models(&catalog).unwrap(), Vec::<String>::new());
}
