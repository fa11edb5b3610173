use fibonacci_server::resource::{
    build_resource, merge_layers, DETECT_TIMEOUT_SECS, SERVICE_NAME, TELEMETRY_SDK_LANGUAGE,
    TELEMETRY_SDK_NAME, TELEMETRY_SDK_VERSION,
};
use opentelemetry::{Key, KeyValue, Value};
use opentelemetry_sdk::Resource;

fn text(resource: &Resource, key: &'static str) -> Option<String> {
    resource.get(Key::from_static_str(key)).map(|value| value.to_string())
}

#[test]
fn later_layer_overwrites_earlier() {
    let sdk = Resource::new(vec![
        KeyValue::new("service.name", "unknown_service"),
        KeyValue::new("only.sdk", "s"),
        KeyValue::new("all", "from-sdk"),
    ]);
    let env = Resource::new(vec![
        KeyValue::new("service.name", "fibonacci"),
        KeyValue::new("only.env", "e"),
        KeyValue::new("all", "from-env"),
        KeyValue::new("telemetry.sdk.name", "spoofed"),
    ]);
    let telemetry = Resource::new(vec![
        KeyValue::new("telemetry.sdk.name", "opentelemetry"),
        KeyValue::new("all", "from-telemetry"),
    ]);
    let merged = merge_layers(&sdk, &env, &telemetry);
    assert_eq!(merged.len(), 5);
    assert_eq!(text(&merged, "service.name"), Some(String::from("fibonacci")));
    assert_eq!(text(&merged, "only.sdk"), Some(String::from("s")));
    assert_eq!(text(&merged, "only.env"), Some(String::from("e")));
    assert_eq!(text(&merged, "all"), Some(String::from("from-telemetry")));
    assert_eq!(text(&merged, "telemetry.sdk.name"), Some(String::from("opentelemetry")));
    assert_eq!(text(&merged, "absent"), None);
}

#[test]
fn merge_order_matters() {
    let first = Resource::new(vec![KeyValue::new("k", "first")]);
    let second = Resource::new(vec![KeyValue::new("k", "second")]);
    let third = Resource::new(vec![KeyValue::new("k", "third")]);
    assert_eq!(text(&merge_layers(&first, &second, &third), "k"), Some(String::from("third")));
    assert_eq!(text(&merge_layers(&third, &second, &first), "k"), Some(String::from("first")));
    assert_eq!(
        text(&merge_layers(&first, &second, &Resource::empty()), "k"),
        Some(String::from("second"))
    );
}

#[test]
fn empty_layers_add_nothing() {
    let sdk = Resource::new(vec![KeyValue::new("service.name", "unknown_service")]);
    let merged = merge_layers(&sdk, &Resource::empty(), &Resource::empty());
    assert_eq!(merged, sdk);
    let merged = merge_layers(&Resource::empty(), &Resource::empty(), &sdk);
    assert_eq!(merged, sdk);
    assert!(merge_layers(&Resource::empty(), &Resource::empty(), &Resource::empty()).is_empty());
}

#[test]
fn values_keep_their_kind() {
    let sdk = Resource::new(vec![KeyValue::new("replicas", 3i64), KeyValue::new("debug", true)]);
    let env = Resource::new(vec![KeyValue::new("replicas", 4i64)]);
    let merged = merge_layers(&sdk, &env, &Resource::empty());
    assert_eq!(merged.get(Key::from_static_str("replicas")), Some(Value::I64(4)));
    assert_eq!(merged.get(Key::from_static_str("debug")), Some(Value::Bool(true)));
}

#[test]
fn built_resource_names_service_and_library() {
    let resource = build_resource();
    assert!(text(&resource, SERVICE_NAME).is_some());
    assert_eq!(text(&resource, TELEMETRY_SDK_NAME), Some(String::from("opentelemetry")));
    assert_eq!(text(&resource, TELEMETRY_SDK_LANGUAGE), Some(String::from("rust")));
    assert!(text(&resource, TELEMETRY_SDK_VERSION).is_some());
}

#[test]
fn resource_keys() {
    assert_eq!(DETECT_TIMEOUT_SECS, 0);
    assert_eq!(SERVICE_NAME, "service.name");
    assert_eq!(TELEMETRY_SDK_NAME, "telemetry.sdk.name");
    assert_eq!(TELEMETRY_SDK_LANGUAGE, "telemetry.sdk.language");
    assert_eq!(TELEMETRY_SDK_VERSION, "telemetry.sdk.version");
}
