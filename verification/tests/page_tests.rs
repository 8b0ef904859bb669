use webdriver_cdp::error::WebDriverError;
use webdriver_cdp::json::{Json, JsonNumber};
use webdriver_cdp::page::{
    alert_text_from_body, alert_text_response, bool_value_response, clip_screenshot_command,
    device_metrics_command, dialog_command, dialog_outcome, element_rect_value,
    extract_bool_result, extract_string_result, navigate_command, rect_response, reload_command,
    screenshot_command, screenshot_response, status_response, string_value_response,
    value_or_null_response, window_rect_request, window_rect_response, window_size_response,
    window_size_text,
};

fn to_json(v: &serde_json::Value) -> Json {
    match v {
        serde_json::Value::Null => Json::Null,
        serde_json::Value::Bool(b) => Json::Bool(*b),
        serde_json::Value::Number(n) => {
            if let Some(u) = n.as_u64() {
                Json::Number(JsonNumber::PosInt(u))
            } else if let Some(i) = n.as_i64() {
                Json::Number(JsonNumber::NegInt(i))
            } else {
                Json::Number(JsonNumber::Float(n.as_f64().unwrap_or(0.0).to_bits()))
            }
        }
        serde_json::Value::String(s) => Json::Str(s.clone()),
        serde_json::Value::Array(a) => Json::Array(a.iter().map(to_json).collect()),
        serde_json::Value::Object(o) => {
            Json::Object(o.iter().map(|(k, x)| (k.clone(), to_json(x))).collect())
        }
    }
}

fn parse(text: &str) -> Json {
    to_json(&serde_json::from_str::<serde_json::Value>(text).expect("valid JSON"))
}

#[test]
fn navigation_needs_a_url() {
    let c = navigate_command(&parse(r#"{"url":"https://example.com"}"#)).unwrap();
    assert_eq!(c.method, "Page.navigate");
    assert_eq!(c.params.get_str("url"), Some("https://example.com"));
    match navigate_command(&parse(r#"{}"#)) {
        Err(WebDriverError::InvalidArgument(m)) => assert_eq!(m, "Missing 'url' parameter"),
        _ => panic!(),
    }
    let r = reload_command();
    assert_eq!(r.method, "Page.reload");
    assert_eq!(r.params, Json::Object(vec![]));
}

#[test]
fn string_results_default_to_empty() {
    assert_eq!(extract_string_result(&parse(r#"{"result":{"value":"T"}}"#)), "T");
    assert_eq!(extract_string_result(&parse(r#"{"result":{"value":3}}"#)), "");
    assert_eq!(extract_string_result(&parse(r#"{}"#)), "");
    let r = string_value_response(&parse(r#"{"result":{"value":"https://a/"}}"#));
    assert_eq!(r.get_str("value"), Some("https://a/"));
}

#[test]
fn values_default_to_null() {
    let r = value_or_null_response(&parse(r#"{"result":{"value":[1]}}"#));
    assert_eq!(r.get("value").and_then(|v| v.as_array()).map(|a| a.len()), Some(1));
    let n = value_or_null_response(&parse(r#"{"result":{}}"#));
    assert_eq!(n.get("value"), Some(&Json::Null));
}

#[test]
fn booleans_default_as_asked() {
    assert!(extract_bool_result(&parse(r#"{"result":{"value":true}}"#), false));
    assert!(extract_bool_result(&parse(r#"{"result":{"value":"yes"}}"#), true));
    assert!(!extract_bool_result(&parse(r#"{}"#), false));
    assert_eq!(bool_value_response(&parse(r#"{}"#), true).get_bool("value"), Some(true));
}

#[test]
fn rects_default_to_zero() {
    let z = rect_response(&parse(r#"{}"#));
    let v = z.get("value").unwrap();
    for k in ["x", "y", "width", "height"] {
        assert_eq!(v.get_u64(k), Some(0));
    }
    let r = rect_response(&parse(r#"{"result":{"value":{"x":5}}}"#));
    assert_eq!(r.get("value").unwrap().get_u64("x"), Some(5));
}

#[test]
fn screenshot_commands_and_answers() {
    let c = screenshot_command();
    assert_eq!(c.method, "Page.captureScreenshot");
    assert_eq!(c.params.get_str("format"), Some("png"));
    let clip = clip_screenshot_command(
        JsonNumber::PosInt(1),
        JsonNumber::PosInt(2),
        JsonNumber::PosInt(30),
        JsonNumber::PosInt(40),
    );
    let cl = clip.params.get("clip").unwrap();
    assert_eq!(cl.get_u64("width"), Some(30));
    assert_eq!(cl.get_u64("scale"), Some(1));
    assert_eq!(screenshot_response(&parse(r#"{"data":"iVBOR"}"#)).get_str("value"), Some("iVBOR"));
    assert_eq!(screenshot_response(&parse(r#"{}"#)).get_str("value"), Some(""));
}

#[test]
fn element_rect_is_required() {
    let r = element_rect_value(&parse(r#"{"result":{"value":{"width":3}}}"#)).unwrap();
    assert_eq!(r.get_u64("width"), Some(3));
    match element_rect_value(&parse(r#"{"result":{}}"#)) {
        Err(WebDriverError::UnknownError(m)) => assert_eq!(m, "Failed to get element rect"),
        _ => panic!(),
    }
}

#[test]
fn window_rect_defaults() {
    assert_eq!(window_rect_request(&parse(r#"{"width":800}"#)), (800, 1200));
    assert_eq!(window_rect_request(&parse(r#"{}"#)), (1800, 1200));
    let c = device_metrics_command(800, 600);
    assert_eq!(c.method, "Emulation.setDeviceMetricsOverride");
    assert_eq!(c.params.get_i64("height"), Some(600));
    assert_eq!(c.params.get_bool("mobile"), Some(false));
    let r = window_rect_response(640, 480);
    let v = r.get("value").unwrap();
    assert_eq!((v.get_i64("x"), v.get_i64("width")), (Some(0), Some(640)));
}

#[test]
fn window_size_from_the_page() {
    assert_eq!(
        window_size_text(&parse(r#"{"result":{"value":"{\"width\":10,\"height\":20}"}}"#)),
        "{\"width\":10,\"height\":20}"
    );
    assert_eq!(window_size_text(&parse(r#"{}"#)), "{\"width\":1800,\"height\":1200}");
    let size = parse(r#"{"width":10,"height":20}"#);
    let r = window_size_response(Some(&size));
    assert_eq!(r.get("value").unwrap().get_i64("height"), Some(20));
    let d = window_size_response(None);
    assert_eq!(d.get("value").unwrap().get_i64("width"), Some(1800));
}

#[test]
fn dialogs() {
    let c = dialog_command(true, Some("hello"));
    assert_eq!(c.method, "Page.handleJavaScriptDialog");
    assert_eq!(c.params.get_bool("accept"), Some(true));
    assert_eq!(c.params.get_str("promptText"), Some("hello"));
    let d = dialog_command(false, None);
    assert_eq!(d.params.get("promptText"), None);
    assert_eq!(alert_text_from_body(&parse(r#"{"text":"x"}"#)), "x");
    assert_eq!(alert_text_from_body(&parse(r#"{}"#)), "");
    assert!(dialog_outcome(Ok(Json::Null)).is_ok());
    assert!(matches!(
        dialog_outcome(Err(WebDriverError::Timeout)),
        Err(WebDriverError::NoSuchAlert)
    ));
    assert_eq!(alert_text_response().get_str("value"), Some(""));
}

#[test]
fn status_is_ready() {
    let s = status_response();
    let v = s.get("value").unwrap();
    assert_eq!(v.get_bool("ready"), Some(true));
    assert_eq!(v.get_str("message"), Some("webdriver-cdp"));
}
