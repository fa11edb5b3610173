use fibonacci_server::response::{
    is_empty, is_zero, BodyField, BodyValue, FibError, FibonacciResult, OUT_OF_RANGE_MESSAGE,
};

fn to_json(response: &FibonacciResult) -> String {
    let mut object = serde_json::Map::new();
    for field in response.fields() {
        let value = match field.value {
            BodyValue::Integer(i) => serde_json::Value::from(i),
            BodyValue::Text(t) => serde_json::Value::from(t),
        };
        object.insert(field.name.to_string(), value);
    }
    serde_json::to_string(&serde_json::Value::Object(object)).unwrap()
}

#[test]
fn zero_is_zero() {
    assert!(is_zero(&0));
    assert!(!is_zero(&1));
    assert!(!is_zero(&-1));
    assert!(!is_zero(&i64::MAX));
    assert!(!is_zero(&i64::MIN));
}

#[test]
fn empty_is_empty() {
    assert!(is_empty(&String::new()));
    assert!(!is_empty(&String::from(" ")));
    assert!(!is_empty(&String::from("n must be between 1 and 90")));
}

#[test]
fn success_holds_n_and_result() {
    let response = FibonacciResult::success(10, 55);
    assert_eq!(response, FibonacciResult { n: 10, result: 55, message: String::new() });
    assert_eq!(
        response.fields(),
        vec![
            BodyField { name: "n", value: BodyValue::Integer(10) },
            BodyField { name: "result", value: BodyValue::Integer(55) },
        ]
    );
}

#[test]
fn failure_holds_the_message_only() {
    let response = FibonacciResult::failure(FibError::OutOfRange);
    assert_eq!(
        response,
        FibonacciResult { n: 0, result: 0, message: String::from("n must be between 1 and 90") }
    );
    assert_eq!(
        response.fields(),
        vec![BodyField {
            name: "message",
            value: BodyValue::Text(String::from("n must be between 1 and 90")),
        }]
    );
}

#[test]
fn zero_and_empty_fields_are_left_out() {
    let nothing = FibonacciResult { n: 0, result: 0, message: String::new() };
    assert!(nothing.fields().is_empty());
    let only_result = FibonacciResult { n: 0, result: 7, message: String::new() };
    assert_eq!(
        only_result.fields(),
        vec![BodyField { name: "result", value: BodyValue::Integer(7) }]
    );
    let all = FibonacciResult { n: -3, result: 7, message: String::from("x") };
    assert_eq!(
        all.fields(),
        vec![
            BodyField { name: "n", value: BodyValue::Integer(-3) },
            BodyField { name: "result", value: BodyValue::Integer(7) },
            BodyField { name: "message", value: BodyValue::Text(String::from("x")) },
        ]
    );
}

#[test]
fn failure_body_as_json() {
    let response = FibonacciResult::failure(FibError::OutOfRange);
    assert_eq!(to_json(&response), "{\"message\":\"n must be between 1 and 90\"}");
    let written: serde_json::Value = serde_json::from_str(&to_json(&response)).unwrap();
    let wanted: serde_json::Value =
        serde_json::from_str("{\"message\": \"n must be between 1 and 90\"}").unwrap();
    assert_eq!(written, wanted);
    assert!(written.get("n").is_none());
    assert!(written.get("result").is_none());
}

#[test]
fn success_body_as_json() {
    let response = FibonacciResult::success(10, 55);
    assert_eq!(to_json(&response), "{\"n\":10,\"result\":55}");
    let written: serde_json::Value = serde_json::from_str(&to_json(&response)).unwrap();
    assert!(written.get("message").is_none());
}

#[test]
fn message_constant() {
    assert_eq!(OUT_OF_RANGE_MESSAGE, "n must be between 1 and 90");
}
