use webdriver_cdp::error::WebDriverError;
use webdriver_cdp::json::{Json, JsonNumber};
use webdriver_cdp::scripts::{
    execute_command, extract_result_or_error, extract_script_and_args, wrap_async_script,
    wrap_sync_script,
};

fn to_json(v: &serde_json::Value) -> Json {
    match v {
        serde_json::Value::Null => Json::Null,
        serde_json::Value::Bool(b) => Json::Bool(*b),
        serde_json::Value::Number(n) => {
            if let Some(u) = n.as_u64() {
                Json::Number(JsonNumber::PosInt(u))
            } else if let Some(i) = n.as_i64() {
                Json::Number(JsonNumber::NegInt(i))
            } else {
                Json::Number(JsonNumber::Float(n.as_f64().unwrap_or(0.0).to_bits()))
            }
        }
        serde_json::Value::String(s) => Json::Str(s.clone()),
        serde_json::Value::Array(a) => Json::Array(a.iter().map(to_json).collect()),
        serde_json::Value::Object(o) => {
            Json::Object(o.iter().map(|(k, x)| (k.clone(), to_json(x))).collect())
        }
    }
}

fn parse(text: &str) -> Json {
    to_json(&serde_json::from_str::<serde_json::Value>(text).expect("valid JSON"))
}

#[test]
fn script_request_needs_a_script() {
    let (s, a) = extract_script_and_args(&parse(r#"{"script":"return 1","args":[1,"x"]}"#)).unwrap();
    assert_eq!(s, "return 1");
    assert_eq!(a, vec![Json::Number(JsonNumber::PosInt(1)), Json::Str("x".into())]);
    let (_, none) = extract_script_and_args(&parse(r#"{"script":""}"#)).unwrap();
    assert!(none.is_empty());
    match extract_script_and_args(&parse(r#"{"args":[]}"#)) {
        Err(WebDriverError::InvalidArgument(m)) => assert_eq!(m, "Missing 'script' parameter"),
        _ => panic!(),
    }
}

#[test]
fn sync_script_is_wrapped_with_its_arguments() {
    assert_eq!(
        wrap_sync_script("return arguments[0];", "[5]"),
        "(() => { const __args = [5]; return (function() { return arguments[0]; }).apply(null, __args); })()"
    );
}

#[test]
fn async_script_is_wrapped_with_a_timeout() {
    assert_eq!(
        wrap_async_script("arguments[0]('ok');", "[]", 30000),
        "new Promise((resolve, reject) => { const __args = []; __args.push(resolve); setTimeout(() => reject(new Error('Script timeout')), 30000); (function() { arguments[0]('ok'); }).apply(null, __args); })"
    );
}

#[test]
fn execute_command_evaluates_by_value() {
    let c = execute_command("1", true);
    assert_eq!(c.method, "Runtime.evaluate");
    assert_eq!(c.params.get_bool("returnByValue"), Some(true));
    assert_eq!(c.params.get_bool("awaitPromise"), Some(true));
}

#[test]
fn script_results_and_errors() {
    let v = extract_result_or_error(&parse(r#"{"result":{"value":7}}"#)).unwrap();
    assert_eq!(v, Json::Number(JsonNumber::PosInt(7)));
    assert_eq!(extract_result_or_error(&parse(r#"{"result":{}}"#)).unwrap(), Json::Null);
    match extract_result_or_error(&parse(r#"{"exceptionDetails":{"text":"Uncaught","exception":{"description":"E"}}}"#)) {
        Err(WebDriverError::JavascriptError(m)) => assert_eq!(m, "Uncaught"),
        _ => panic!(),
    }
    match extract_result_or_error(&parse(r#"{"exceptionDetails":{"exception":{"description":"Error: x"}}}"#)) {
        Err(WebDriverError::JavascriptError(m)) => assert_eq!(m, "Error: x"),
        _ => panic!(),
    }
    match extract_result_or_error(&parse(r#"{"exceptionDetails":{}}"#)) {
        Err(WebDriverError::JavascriptError(m)) => assert_eq!(m, "JavaScript error"),
        _ => panic!(),
    }
}
