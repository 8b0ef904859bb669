use webdriver_cdp::error::WebDriverError;
use webdriver_cdp::input::{
    center_query_command, click_commands, extract_keys_text, mouse_moved_command, normalize_key,
    plan_actions, pointer_button_name, special_key, special_key_function, special_key_navigation,
    typing_commands_for, ActionStep, ELEMENT_KEY, POINTER_CENTER_JS,
};
use webdriver_cdp::json::{Json, JsonNumber};

fn to_json(v: &serde_json::Value) -> Json {
    match v {
        serde_json::Value::Null => Json::Null,
        serde_json::Value::Bool(b) => Json::Bool(*b),
        serde_json::Value::Number(n) => {
            if let Some(u) = n.as_u64() {
                Json::Number(JsonNumber::PosInt(u))
            } else if let Some(i) = n.as_i64() {
                Json::Number(JsonNumber::NegInt(i))
            } else {
                Json::Number(JsonNumber::Float(n.as_f64().unwrap_or(0.0).to_bits()))
            }
        }
        serde_json::Value::String(s) => Json::Str(s.clone()),
        serde_json::Value::Array(a) => Json::Array(a.iter().map(to_json).collect()),
        serde_json::Value::Object(o) => {
            Json::Object(o.iter().map(|(k, x)| (k.clone(), to_json(x))).collect())
        }
    }
}

fn parse(text: &str) -> Json {
    to_json(&serde_json::from_str::<serde_json::Value>(text).expect("valid JSON"))
}

#[test]
fn special_keys_of_the_navigation_range() {
    let k = special_key_navigation('\u{E007}').expect("enter");
    assert_eq!((k.key, k.code, k.key_code), ("Enter", "Enter", 13));
    let k = special_key_navigation('\u{E00D}').expect("space");
    assert_eq!((k.key, k.code, k.key_code), (" ", "Space", 32));
    let k = special_key_navigation('\u{E017}').expect("delete");
    assert_eq!((k.key, k.code, k.key_code), ("Delete", "Delete", 46));
    assert!(special_key_navigation('\u{E005}').is_none());
    assert!(special_key_navigation('a').is_none());
}

#[test]
fn special_keys_of_the_function_range() {
    let k = special_key_function('\u{E031}').expect("f1");
    assert_eq!((k.key, k.code, k.key_code), ("F1", "F1", 112));
    let k = special_key_function('\u{E03C}').expect("f12");
    assert_eq!((k.key, k.code, k.key_code), ("F12", "F12", 123));
    assert!(special_key_function('\u{E03D}').is_none());
}

#[test]
fn special_key_covers_both_ranges() {
    assert_eq!(special_key('\u{E003}').expect("backspace").key, "Backspace");
    assert_eq!(special_key('\u{E035}').expect("f5").key_code, 116);
    assert!(special_key('x').is_none());
}

#[test]
fn normalize_key_maps_special_characters() {
    assert_eq!(normalize_key("\u{E006}"), "Enter");
    assert_eq!(normalize_key("\u{E012}abc"), "ArrowLeft");
    assert_eq!(normalize_key("a"), "a");
    assert_eq!(normalize_key(""), "");
    assert_eq!(normalize_key("\u{E031}"), "\u{E031}");
}

#[test]
fn normalized_key_agrees_with_special_key_on_values() {
    for c in ['\u{E003}', '\u{E004}', '\u{E007}', '\u{E00C}', '\u{E00D}', '\u{E015}'] {
        let s = c.to_string();
        assert_eq!(normalize_key(&s), special_key(c).expect("special").key);
    }
}

#[test]
fn pointer_buttons_are_named() {
    assert_eq!(pointer_button_name(0), "left");
    assert_eq!(pointer_button_name(1), "middle");
    assert_eq!(pointer_button_name(2), "right");
    assert_eq!(pointer_button_name(-7), "left");
}

#[test]
fn keys_text_prefers_text_then_value() {
    assert_eq!(extract_keys_text(&parse(r#"{"text":"hi","value":["x"]}"#)), "hi");
    assert_eq!(extract_keys_text(&parse(r#"{"value":["a",1,"bc"]}"#)), "abc");
    assert_eq!(extract_keys_text(&parse(r#"{}"#)), "");
}

#[test]
fn typing_a_plain_and_a_special_character() {
    let cmds = typing_commands_for("a\u{E007}");
    assert_eq!(cmds.len(), 4);
    assert!(cmds.iter().all(|c| c.method == "Input.dispatchKeyEvent"));
    assert_eq!(cmds[0].params.get_str("type"), Some("keyDown"));
    assert_eq!(cmds[0].params.get_str("text"), Some("a"));
    assert_eq!(cmds[0].params.get_str("unmodifiedText"), Some("a"));
    assert_eq!(cmds[1].params.get_str("type"), Some("keyUp"));
    assert_eq!(cmds[1].params.get_str("key"), Some("a"));
    assert_eq!(cmds[2].params.get_str("key"), Some("Enter"));
    assert_eq!(cmds[2].params.get_u64("windowsVirtualKeyCode"), Some(13));
    assert_eq!(cmds[3].params.get_str("type"), Some("keyUp"));
    assert_eq!(cmds[3].params.get_str("code"), Some("Enter"));
}

#[test]
fn typing_nothing_sends_nothing() {
    assert!(typing_commands_for("").is_empty());
}

#[test]
fn click_is_move_press_release() {
    let cmds = click_commands(JsonNumber::PosInt(10), JsonNumber::PosInt(20));
    let kinds: Vec<&str> = cmds.iter().map(|c| c.params.get_str("type").unwrap()).collect();
    assert_eq!(kinds, vec!["mouseMoved", "mousePressed", "mouseReleased"]);
    assert_eq!(cmds[1].params.get_u64("x"), Some(10));
    assert_eq!(cmds[2].params.get_u64("y"), Some(20));
    assert_eq!(cmds[2].params.get_str("button"), Some("left"));
    assert_eq!(cmds[2].params.get_u64("clickCount"), Some(1));
    let mv = mouse_moved_command(JsonNumber::PosInt(1), JsonNumber::PosInt(2));
    assert_eq!(mv.method, "Input.dispatchMouseEvent");
    assert_eq!(mv.params.get_u64("y"), Some(2));
}

#[test]
fn actions_without_actions_are_refused() {
    match plan_actions(&parse(r#"{"foo":1}"#)) {
        Err(WebDriverError::InvalidArgument(m)) => assert_eq!(m, "Missing 'actions' parameter"),
        _ => panic!("expected invalid argument"),
    }
}

#[test]
fn actions_are_planned_in_order() {
    let body = parse(&format!(
        r#"{{"actions":[
            {{"type":"pointer","actions":[
                {{"type":"pointerMove","x":5,"y":6,"origin":{{"{}":"obj-1"}}}},
                {{"type":"pointerDown","button":2}},
                {{"type":"pointerUp"}},
                {{"type":"bogus"}}
            ]}},
            {{"type":"key","actions":[
                {{"type":"keyDown","value":"\uE007"}},
                {{"type":"keyDown","value":"q"}},
                {{"type":"keyUp","value":"q"}},
                {{"type":"pause","duration":7}}
            ]}},
            {{"type":"none","actions":[{{"type":"pause"}}]}},
            {{"type":"wheel","actions":[{{"type":"scroll"}}]}}
        ]}}"#,
        ELEMENT_KEY
    ));
    let steps = plan_actions(&body).expect("planned");
    assert_eq!(steps.len(), 8);
    match &steps[0] {
        ActionStep::PointerMove { action, origin_element } => {
            assert_eq!(origin_element.as_deref(), Some("obj-1"));
            assert_eq!(action.get_u64("x"), Some(5));
        }
        _ => panic!("pointer move"),
    }
    match &steps[1] {
        ActionStep::Dispatch(c) => {
            assert_eq!(c.params.get_str("type"), Some("mousePressed"));
            assert_eq!(c.params.get_str("button"), Some("right"));
        }
        _ => panic!("press"),
    }
    match &steps[2] {
        ActionStep::Dispatch(c) => assert_eq!(c.params.get_str("button"), Some("left")),
        _ => panic!("release"),
    }
    match &steps[3] {
        ActionStep::Dispatch(c) => {
            assert_eq!(c.params.get_str("key"), Some("Enter"));
            assert_eq!(c.params.get_str("text"), Some(""));
        }
        _ => panic!("enter down"),
    }
    match &steps[4] {
        ActionStep::Dispatch(c) => assert_eq!(c.params.get_str("text"), Some("q")),
        _ => panic!("q down"),
    }
    match &steps[5] {
        ActionStep::Dispatch(c) => {
            assert_eq!(c.params.get_str("type"), Some("keyUp"));
            assert_eq!(c.params.get("text"), None);
        }
        _ => panic!("q up"),
    }
    assert!(matches!(steps[6], ActionStep::Pause(Some(7))));
    assert!(matches!(steps[7], ActionStep::Pause(None)));
}

#[test]
fn center_query_asks_for_the_bounding_box_centre() {
    let c = center_query_command("obj-9");
    assert_eq!(c.method, "Runtime.callFunctionOn");
    assert_eq!(c.params.get_str("objectId"), Some("obj-9"));
    assert_eq!(c.params.get_str("functionDeclaration"), Some(POINTER_CENTER_JS));
    assert_eq!(c.params.get_bool("returnByValue"), Some(true));
}
