use webdriver_cdp::cdp::{classify_incoming, command, request_message, Incoming};
use webdriver_cdp::json::{
    json_i64, json_u64, null_response, obj2, value_response, Json, JsonNumber,
};

fn to_json(v: &serde_json::Value) -> Json {
    match v {
        serde_json::Value::Null => Json::Null,
        serde_json::Value::Bool(b) => Json::Bool(*b),
        serde_json::Value::Number(n) => {
            if let Some(u) = n.as_u64() {
                Json::Number(JsonNumber::PosInt(u))
            } else if let Some(i) = n.as_i64() {
                Json::Number(JsonNumber::NegInt(i))
            } else {
                Json::Number(JsonNumber::Float(n.as_f64().unwrap_or(0.0).to_bits()))
            }
        }
        serde_json::Value::String(s) => Json::Str(s.clone()),
        serde_json::Value::Array(a) => Json::Array(a.iter().map(to_json).collect()),
        serde_json::Value::Object(o) => {
            Json::Object(o.iter().map(|(k, x)| (k.clone(), to_json(x))).collect())
        }
    }
}

fn parse(text: &str) -> Json {
    to_json(&serde_json::from_str::<serde_json::Value>(text).expect("valid JSON"))
}

#[test]
fn set_then_get_reads_back_and_keeps_others() {
    let mut o = parse(r#"{"a":1,"b":2}"#);
    o.set("a", Json::Str("x".into()));
    assert_eq!(o.get_str("a"), Some("x"));
    assert_eq!(o.get_u64("b"), Some(2));
    o.set("c", Json::Bool(true));
    assert_eq!(o.get_bool("c"), Some(true));
    assert_eq!(o.key_index("c"), Some(2));
    let mut not_object = Json::Null;
    not_object.set("a", Json::Null);
    assert_eq!(not_object, Json::Null);
}

#[test]
fn accessors_by_kind() {
    let v = parse(r#"{"n":-3,"big":18446744073709551615,"s":"t","arr":[true,null],"f":1.5}"#);
    assert_eq!(v.get_i64("n"), Some(-3));
    assert_eq!(v.get_u64("n"), None);
    assert_eq!(v.get_u64("big"), Some(u64::MAX));
    assert_eq!(v.get_i64("big"), None);
    assert_eq!(v.get_u64("f"), None);
    assert_eq!(v.get_str("s"), Some("t"));
    let arr = v.get("arr").unwrap();
    assert_eq!(arr.at(0), Some(&Json::Bool(true)));
    assert_eq!(arr.at(2), None);
    assert_eq!(v.get("missing"), None);
    assert_eq!(v.deep_clone(), v);
}

#[test]
fn result_value_is_read_under_result() {
    let r = parse(r#"{"result":{"type":"number","value":5}}"#);
    assert_eq!(r.result_value(), Some(&Json::Number(JsonNumber::PosInt(5))));
    assert_eq!(parse(r#"{"result":{}}"#).result_value(), None);
}

#[test]
fn value_bodies() {
    assert_eq!(
        value_response(json_u64(1)),
        Json::Object(vec![("value".into(), Json::Number(JsonNumber::PosInt(1)))])
    );
    assert_eq!(null_response().get("value"), Some(&Json::Null));
    assert_eq!(json_i64(-1), Json::Number(JsonNumber::NegInt(-1)));
    assert_eq!(json_i64(7), Json::Number(JsonNumber::PosInt(7)));
}

#[test]
fn reply_to_a_framed_command_is_routed_back() {
    let msg = request_message(17, command("Runtime.evaluate", obj2("a", json_u64(1), "b", json_u64(2))));
    let id = msg.get_i64("id").unwrap();
    let reply = Json::Object(vec![
        ("id".into(), json_i64(id)),
        ("result".into(), parse(r#"{"ok":true}"#)),
    ]);
    match classify_incoming(&reply) {
        Incoming::Reply { id: 17, outcome: Ok(r) } => assert_eq!(r.get_bool("ok"), Some(true)),
        _ => panic!("reply expected"),
    }
}
