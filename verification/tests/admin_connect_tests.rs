use webdriver_cdp::admin::ChromeMode;
use webdriver_cdp::connect::{
    admin_url, parse_connect_args, port_or_default, register_body, ConnectArgsError,
};
use webdriver_cdp::json::{Json, JsonNumber};

fn to_json(v: &serde_json::Value) -> Json {
    match v {
        serde_json::Value::Null => Json::Null,
        serde_json::Value::Bool(b) => Json::Bool(*b),
        serde_json::Value::Number(n) => {
            if let Some(u) = n.as_u64() {
                Json::Number(JsonNumber::PosInt(u))
            } else if let Some(i) = n.as_i64() {
                Json::Number(JsonNumber::NegInt(i))
            } else {
                Json::Number(JsonNumber::Float(n.as_f64().unwrap_or(0.0).to_bits()))
            }
        }
        serde_json::Value::String(s) => Json::Str(s.clone()),
        serde_json::Value::Array(a) => Json::Array(a.iter().map(to_json).collect()),
        serde_json::Value::Object(o) => {
            Json::Object(o.iter().map(|(k, x)| (k.clone(), to_json(x))).collect())
        }
    }
}

fn parse(text: &str) -> Json {
    to_json(&serde_json::from_str::<serde_json::Value>(text).expect("valid JSON"))
}

fn args(a: &[&str]) -> Vec<String> {
    a.iter().map(|s| s.to_string()).collect()
}

#[test]
fn chrome_mode_starts_internal() {
    let m = ChromeMode::new();
    assert_eq!(m.mode_response().get_str("mode"), Some("internal"));
    assert_eq!(m.target_base_url(9222), "http://127.0.0.1:9222");
}

#[test]
fn chrome_mode_switches_and_back() {
    let mut m = ChromeMode::new();
    let r = m.set_external(&parse(r#"{"url":"http://host.docker.internal:9222"}"#));
    assert_eq!(r.get_str("mode"), Some("external"));
    assert_eq!(r.get_str("url"), Some("http://host.docker.internal:9222"));
    assert_eq!(m.mode_response().get_str("url"), Some("http://host.docker.internal:9222"));
    assert_eq!(m.target_base_url(1), "http://host.docker.internal:9222");
    let c = m.clear();
    assert_eq!(c, Json::Object(vec![("mode".into(), Json::Str("internal".into()))]));
    assert_eq!(m.target_base_url(9333), "http://127.0.0.1:9333");
}

#[test]
fn chrome_mode_without_url_is_external_with_empty_url() {
    let mut m = ChromeMode::new();
    let r = m.set_external(&parse(r#"{}"#));
    assert_eq!(r.get_str("url"), Some(""));
    assert_eq!(m.target_base_url(9222), "");
}

#[test]
fn connect_defaults() {
    let a = parse_connect_args(&args(&[])).unwrap();
    assert_eq!(a.server, "http://localhost:4444");
    assert_eq!(a.debug_port, 9222);
}

#[test]
fn connect_options_in_any_order() {
    let a = parse_connect_args(&args(&["--port", "9333", "--server", "http://x:1"])).unwrap();
    assert_eq!((a.server.as_str(), a.debug_port), ("http://x:1", 9333));
    let b = parse_connect_args(&args(&["--port", "1", "--port", "+2"])).unwrap();
    assert_eq!(b.debug_port, 2);
}

#[test]
fn connect_refusals() {
    match parse_connect_args(&args(&["--port", "70000"])) {
        Err(ConnectArgsError::InvalidPort(p)) => assert_eq!(p, "70000"),
        _ => panic!(),
    }
    match parse_connect_args(&args(&["--verbose"])) {
        Err(ConnectArgsError::UnknownArgument(a)) => assert_eq!(a, "--verbose"),
        _ => panic!(),
    }
    match parse_connect_args(&args(&["--server"])) {
        Err(ConnectArgsError::UnknownArgument(a)) => assert_eq!(a, "--server"),
        _ => panic!(),
    }
}

#[test]
fn ports_from_the_environment() {
    assert_eq!(port_or_default(Some("4445"), 4444), 4445);
    assert_eq!(port_or_default(Some("x"), 4444), 4444);
    assert_eq!(port_or_default(Some(""), 4444), 4444);
    assert_eq!(port_or_default(Some("65536"), 1), 1);
    assert_eq!(port_or_default(None, 9222), 9222);
}

#[test]
fn port_written_and_read_back() {
    for p in [0u16, 1, 80, 9222, 65535] {
        let body = register_body(p);
        let url = body.get_str("url").unwrap();
        let digits = url.strip_prefix("http://host.docker.internal:").unwrap();
        assert_eq!(port_or_default(Some(digits), 7), p);
    }
}

#[test]
fn admin_endpoint_and_registration() {
    assert_eq!(admin_url("http://localhost:4444"), "http://localhost:4444/_admin/chrome");
    assert_eq!(
        register_body(9222),
        Json::Object(vec![(
            "url".into(),
            Json::Str("http://host.docker.internal:9222".into())
        )])
    );
}
