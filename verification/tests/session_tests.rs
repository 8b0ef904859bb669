use webdriver_cdp::error::WebDriverError;
use webdriver_cdp::input::ELEMENT_KEY;
use webdriver_cdp::json::{Json, JsonNumber};
use webdriver_cdp::session::{
    apply_timeouts, call_function_on_command, closed_window_response, enable_domains_commands,
    evaluate_js_command, extract_timeouts, new_timeouts, read_requested,
    session_capabilities_response, switch_to_frame, timeouts_in_body, timeouts_response,
    RequestedTimeouts, SessionInfo, SessionTimeouts,
};

fn to_json(v: &serde_json::Value) -> Json {
    match v {
        serde_json::Value::Null => Json::Null,
        serde_json::Value::Bool(b) => Json::Bool(*b),
        serde_json::Value::Number(n) => {
            if let Some(u) = n.as_u64() {
                Json::Number(JsonNumber::PosInt(u))
            } else if let Some(i) = n.as_i64() {
                Json::Number(JsonNumber::NegInt(i))
            } else {
                Json::Number(JsonNumber::Float(n.as_f64().unwrap_or(0.0).to_bits()))
            }
        }
        serde_json::Value::String(s) => Json::Str(s.clone()),
        serde_json::Value::Array(a) => Json::Array(a.iter().map(to_json).collect()),
        serde_json::Value::Object(o) => {
            Json::Object(o.iter().map(|(k, x)| (k.clone(), to_json(x))).collect())
        }
    }
}

fn parse(text: &str) -> Json {
    to_json(&serde_json::from_str::<serde_json::Value>(text).expect("valid JSON"))
}

#[test]
fn new_session_timeouts_are_the_defaults() {
    let t = new_timeouts();
    assert_eq!(
        t,
        SessionTimeouts { implicit_wait_ms: 0, page_load_timeout_ms: 300_000, script_timeout_ms: 30_000 }
    );
}

#[test]
fn applying_timeouts_keeps_the_unrequested_ones() {
    let t = new_timeouts();
    let r = RequestedTimeouts { implicit: Some(5), page_load: None, script: Some(9) };
    let a = apply_timeouts(t, r);
    assert_eq!(a.implicit_wait_ms, 5);
    assert_eq!(a.page_load_timeout_ms, 300_000);
    assert_eq!(a.script_timeout_ms, 9);
}

#[test]
fn requested_timeouts_are_non_negative_integers() {
    let body = parse(r#"{"implicit":100,"pageLoad":-1,"script":"x"}"#);
    let r = timeouts_in_body(&body);
    assert_eq!(r, RequestedTimeouts { implicit: Some(100), page_load: None, script: None });
    assert_eq!(
        read_requested(None),
        RequestedTimeouts { implicit: None, page_load: None, script: None }
    );
}

#[test]
fn new_session_timeouts_are_found_in_the_capabilities() {
    let always = parse(r#"{"capabilities":{"alwaysMatch":{"timeouts":{"implicit":1}},"firstMatch":[{"timeouts":{"implicit":2}}]}}"#);
    assert_eq!(extract_timeouts(&always).implicit, Some(1));
    let first = parse(r#"{"capabilities":{"firstMatch":[{"timeouts":{"script":2}}]}}"#);
    assert_eq!(extract_timeouts(&first).script, Some(2));
    let desired = parse(r#"{"desiredCapabilities":{"timeouts":{"pageLoad":3}}}"#);
    assert_eq!(extract_timeouts(&desired).page_load, Some(3));
    let none = parse(r#"{"capabilities":{}}"#);
    assert_eq!(
        extract_timeouts(&none),
        RequestedTimeouts { implicit: None, page_load: None, script: None }
    );
}

#[test]
fn timeouts_response_reports_all_three() {
    let r = timeouts_response(new_timeouts());
    let v = r.get("value").unwrap();
    assert_eq!(v.get_u64("implicit"), Some(0));
    assert_eq!(v.get_u64("pageLoad"), Some(300_000));
    assert_eq!(v.get_u64("script"), Some(30_000));
}

#[test]
fn set_then_get_timeouts_reads_back() {
    let mut s = SessionInfo::new("sid".into(), "tid".into());
    s.set_timeouts(&parse(r#"{"implicit":2500}"#));
    let got = s.get_timeouts();
    let v = got.get("value").unwrap();
    assert_eq!(v.get_u64("implicit"), Some(2500));
    assert_eq!(v.get_u64("pageLoad"), Some(300_000));
    assert_eq!(s.session_id, "sid");
    assert_eq!(s.target_id, "tid");
}

#[test]
fn built_session_starts_from_requested_timeouts() {
    let s = SessionInfo::build(
        "s".into(),
        "t".into(),
        RequestedTimeouts { implicit: None, page_load: Some(10), script: None },
    );
    assert_eq!(s.timeouts.page_load_timeout_ms, 10);
    assert_eq!(s.timeouts.implicit_wait_ms, 0);
}

#[test]
fn window_handles_are_the_target() {
    let s = SessionInfo::new("s".into(), "T1".into());
    assert_eq!(s.window_handle_response().get_str("value"), Some("T1"));
    let hs = s.window_handles_response();
    assert_eq!(hs.get("value").unwrap(), &Json::Array(vec![Json::Str("T1".into())]));
    assert_eq!(closed_window_response().get("value").unwrap(), &Json::Array(vec![]));
}

#[test]
fn switching_windows() {
    let s = SessionInfo::new("s".into(), "T1".into());
    let ok = s.switch_to_window(&parse(r#"{"handle":"T1"}"#)).unwrap();
    assert_eq!(ok.get("value"), Some(&Json::Null));
    assert!(matches!(
        s.switch_to_window(&parse(r#"{"handle":"T2"}"#)),
        Err(WebDriverError::NoSuchWindow)
    ));
    match s.switch_to_window(&parse(r#"{}"#)) {
        Err(WebDriverError::InvalidArgument(m)) => assert_eq!(m, "Missing 'handle'"),
        _ => panic!(),
    }
}

#[test]
fn switching_frames() {
    assert!(switch_to_frame(&parse(r#"{}"#)).is_ok());
    assert!(switch_to_frame(&parse(r#"{"id":null}"#)).is_ok());
    assert!(switch_to_frame(&parse(r#"{"id":0}"#)).is_ok());
    let by_element = parse(&format!(r#"{{"id":{{"{}":"o"}}}}"#, ELEMENT_KEY));
    assert!(switch_to_frame(&by_element).is_ok());
    assert!(matches!(
        switch_to_frame(&parse(r#"{"id":"frame-name"}"#)),
        Err(WebDriverError::NoSuchFrame)
    ));
}

#[test]
fn capabilities_report_the_requested_timeouts() {
    let r = session_capabilities_response(
        "abc",
        RequestedTimeouts { implicit: Some(7), page_load: None, script: None },
    );
    let v = r.get("value").unwrap();
    assert_eq!(v.get_str("sessionId"), Some("abc"));
    let caps = v.get("capabilities").unwrap();
    assert_eq!(caps.get_str("browserName"), Some("chrome"));
    assert_eq!(caps.get_bool("acceptInsecureCerts"), Some(true));
    assert_eq!(caps.get_str("unhandledPromptBehavior"), Some("dismiss and notify"));
    let t = caps.get("timeouts").unwrap();
    assert_eq!(t.get_u64("implicit"), Some(7));
    assert_eq!(t.get_u64("script"), Some(30_000));
}

#[test]
fn session_commands() {
    let methods: Vec<String> = enable_domains_commands().into_iter().map(|c| c.method).collect();
    assert_eq!(methods, vec!["Page.enable", "Runtime.enable", "Network.enable"]);
    let e = evaluate_js_command("document.title", true);
    assert_eq!(e.params.get_bool("awaitPromise"), Some(false));
    let c = call_function_on_command(
        "obj",
        "function(a) { return a; }",
        vec![Json::Number(JsonNumber::PosInt(3))],
        true,
    );
    assert_eq!(c.method, "Runtime.callFunctionOn");
    let args = c.params.get_array("arguments").unwrap();
    assert_eq!(args[0].get_u64("value"), Some(3));
    assert_eq!(c.params.get_bool("returnByValue"), Some(true));
}
