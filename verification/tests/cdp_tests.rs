use webdriver_cdp::cdp::{
    classify_incoming, command, command_result, request_message, translate_cdp_error, Incoming,
    ReplyStatus,
};
use webdriver_cdp::error::WebDriverError;
use webdriver_cdp::json::{Json, JsonNumber};

fn to_json(v: &serde_json::Value) -> Json {
    match v {
        serde_json::Value::Null => Json::Null,
        serde_json::Value::Bool(b) => Json::Bool(*b),
        serde_json::Value::Number(n) => {
            if let Some(u) = n.as_u64() {
                Json::Number(JsonNumber::PosInt(u))
            } else if let Some(i) = n.as_i64() {
                Json::Number(JsonNumber::NegInt(i))
            } else {
                Json::Number(JsonNumber::Float(n.as_f64().unwrap_or(0.0).to_bits()))
            }
        }
        serde_json::Value::String(s) => Json::Str(s.clone()),
        serde_json::Value::Array(a) => Json::Array(a.iter().map(to_json).collect()),
        serde_json::Value::Object(o) => {
            Json::Object(o.iter().map(|(k, x)| (k.clone(), to_json(x))).collect())
        }
    }
}

fn parse(text: &str) -> Json {
    to_json(&serde_json::from_str::<serde_json::Value>(text).expect("valid JSON"))
}

#[test]
fn cdp_errors_are_translated() {
    assert!(matches!(
        translate_cdp_error("Cannot find context with specified id".into()),
        WebDriverError::NoSuchFrame
    ));
    assert!(matches!(
        translate_cdp_error("Execution context was destroyed.".into()),
        WebDriverError::NoSuchFrame
    ));
    assert!(matches!(
        translate_cdp_error("Could not find object with given id".into()),
        WebDriverError::StaleElementReference
    ));
    match translate_cdp_error("Something else".into()) {
        WebDriverError::UnknownError(m) => assert_eq!(m, "Something else"),
        _ => panic!("unknown error expected"),
    }
}

#[test]
fn request_message_frames_a_command() {
    let msg = request_message(42, command("Page.navigate", parse(r#"{"url":"about:blank"}"#)));
    assert_eq!(msg.get_i64("id"), Some(42));
    assert_eq!(msg.get_str("method"), Some("Page.navigate"));
    assert_eq!(
        msg.get("params").and_then(|p| p.get_str("url")),
        Some("about:blank")
    );
}

#[test]
fn replies_events_and_noise_are_told_apart() {
    match classify_incoming(&parse(r#"{"id":3,"result":{"a":1}}"#)) {
        Incoming::Reply { id, outcome: Ok(r) } => {
            assert_eq!(id, 3);
            assert_eq!(r.get_u64("a"), Some(1));
        }
        _ => panic!("reply expected"),
    }
    match classify_incoming(&parse(r#"{"id":4}"#)) {
        Incoming::Reply { id: 4, outcome: Ok(r) } => assert_eq!(r, Json::Object(vec![])),
        _ => panic!("empty result expected"),
    }
    match classify_incoming(&parse(r#"{"id":5,"error":{"message":"nope"}}"#)) {
        Incoming::Reply { id: 5, outcome: Err(m) } => assert_eq!(m, "nope"),
        _ => panic!("error reply expected"),
    }
    match classify_incoming(&parse(r#"{"id":6,"error":{}}"#)) {
        Incoming::Reply { outcome: Err(m), .. } => assert_eq!(m, "CDP error"),
        _ => panic!("default error message expected"),
    }
    assert!(matches!(
        classify_incoming(&parse(r#"{"method":"Page.loadEventFired","params":{}}"#)),
        Incoming::Event
    ));
    assert!(matches!(classify_incoming(&parse(r#"{"x":1}"#)), Incoming::Ignored));
}

#[test]
fn command_results_by_fate() {
    match command_result(ReplyStatus::Answered(Ok(Json::Number(JsonNumber::PosInt(1))))) {
        Ok(v) => assert_eq!(v, Json::Number(JsonNumber::PosInt(1))),
        Err(_) => panic!("ok expected"),
    }
    assert!(matches!(
        command_result(ReplyStatus::Answered(Err("Could not find object with given id".into()))),
        Err(WebDriverError::StaleElementReference)
    ));
    match command_result(ReplyStatus::SendFailed) {
        Err(WebDriverError::UnknownError(m)) => assert_eq!(m, "CDP connection closed"),
        _ => panic!(),
    }
    match command_result(ReplyStatus::Dropped) {
        Err(WebDriverError::UnknownError(m)) => assert_eq!(m, "Response channel dropped"),
        _ => panic!(),
    }
    assert!(matches!(command_result(ReplyStatus::TimedOut), Err(WebDriverError::Timeout)));
}
