use webdriver_cdp::elements::{
    build_child_count_js, build_child_find_js, build_child_nth_js, build_css_find_js,
    build_find_js, build_link_text_find_js, build_partial_link_text_find_js,
    build_tag_name_find_js, build_xpath_find_js, center_value, collection_count_expression,
    element_reference, element_response, elements_response, elements_step, evaluate_command,
    extract_count, extract_object_id, find_step, indexed_element_expression, optional_reference,
    parse_locator, ElementsStep, FindStep,
};
use webdriver_cdp::error::WebDriverError;
use webdriver_cdp::input::ELEMENT_KEY;
use webdriver_cdp::json::{Json, JsonNumber};

fn to_json(v: &serde_json::Value) -> Json {
    match v {
        serde_json::Value::Null => Json::Null,
        serde_json::Value::Bool(b) => Json::Bool(*b),
        serde_json::Value::Number(n) => {
            if let Some(u) = n.as_u64() {
                Json::Number(JsonNumber::PosInt(u))
            } else if let Some(i) = n.as_i64() {
                Json::Number(JsonNumber::NegInt(i))
            } else {
                Json::Number(JsonNumber::Float(n.as_f64().unwrap_or(0.0).to_bits()))
            }
        }
        serde_json::Value::String(s) => Json::Str(s.clone()),
        serde_json::Value::Array(a) => Json::Array(a.iter().map(to_json).collect()),
        serde_json::Value::Object(o) => {
            Json::Object(o.iter().map(|(k, x)| (k.clone(), to_json(x))).collect())
        }
    }
}

fn parse(text: &str) -> Json {
    to_json(&serde_json::from_str::<serde_json::Value>(text).expect("valid JSON"))
}

#[test]
fn locator_needs_using_and_value() {
    let (u, v) = parse_locator(&parse(r#"{"using":"css selector","value":".a"}"#)).unwrap();
    assert_eq!((u.as_str(), v.as_str()), ("css selector", ".a"));
    match parse_locator(&parse(r#"{"value":".a"}"#)) {
        Err(WebDriverError::InvalidArgument(m)) => assert_eq!(m, "Missing 'using' parameter"),
        _ => panic!(),
    }
    match parse_locator(&parse(r#"{"using":"xpath"}"#)) {
        Err(WebDriverError::InvalidArgument(m)) => assert_eq!(m, "Missing 'value' parameter"),
        _ => panic!(),
    }
}

#[test]
fn css_find_js_single_and_multiple() {
    assert_eq!(
        build_css_find_js("\"#main\"", true),
        "document.querySelectorAll(\"#main\")"
    );
    assert_eq!(
        build_css_find_js("\"#main\"", false),
        "(() => { const el = document.querySelector(\"#main\"); if (!el) throw new Error('no such element'); return el; })()"
    );
}

#[test]
fn xpath_find_js_single_and_multiple() {
    let single = build_xpath_find_js("\"//a\"", false);
    assert!(single.starts_with("(() => { const r = document.evaluate(\"//a\", document, null, XPathResult.FIRST_ORDERED_NODE_TYPE"));
    let multiple = build_xpath_find_js("\"//a\"", true);
    assert!(multiple.contains("ORDERED_NODE_SNAPSHOT_TYPE"));
    assert!(multiple.ends_with("return a; })()"));
}

#[test]
fn link_text_find_js_compares_trimmed_text() {
    assert_eq!(
        build_link_text_find_js("\"Home\"", true),
        "Array.from(document.querySelectorAll('a')).filter(a => a.textContent.trim() === \"Home\")"
    );
    assert!(build_link_text_find_js("\"Home\"", false).contains(".find(a => a.textContent.trim() === \"Home\")"));
}

#[test]
fn partial_link_text_find_js_uses_includes() {
    assert_eq!(
        build_partial_link_text_find_js("\"Ho\"", true),
        "Array.from(document.querySelectorAll('a')).filter(a => a.textContent.includes(\"Ho\"))"
    );
    assert!(build_partial_link_text_find_js("\"Ho\"", false).contains("throw new Error('no such element')"));
}

#[test]
fn tag_name_find_js_single_and_multiple() {
    assert_eq!(
        build_tag_name_find_js("\"div\"", true),
        "document.getElementsByTagName(\"div\")"
    );
    assert_eq!(
        build_tag_name_find_js("\"div\"", false),
        "(() => { const el = document.getElementsByTagName(\"div\")[0]; if (!el) throw new Error('no such element'); return el; })()"
    );
}

#[test]
fn find_js_quotes_the_value() {
    assert_eq!(
        build_find_js("css selector", "a\"b", true),
        "document.querySelectorAll(\"a\\\"b\")"
    );
    assert_eq!(
        build_find_js("nonsense", "x", false),
        "(() => { throw new Error('Unsupported locator: nonsense'); })()"
    );
}

#[test]
fn child_find_count_and_nth_functions() {
    assert_eq!(
        build_child_find_js("css selector", "p"),
        "function() { const el = this.querySelector(\"p\"); if (!el) throw new Error('no such element'); return el; }"
    );
    assert_eq!(
        build_child_count_js("tag name", "li"),
        "function() { return this.getElementsByTagName(\"li\").length; }"
    );
    assert_eq!(build_child_count_js("link text", "x"), "function() { return 0; }");
    assert_eq!(
        build_child_nth_js("css selector", "li", 12),
        "function() { return this.querySelectorAll(\"li\")[12]; }"
    );
    assert_eq!(build_child_nth_js("bogus", "li", 0), "function() { return null; }");
    assert!(build_child_find_js("link text", "x").contains("Unsupported locator: link text"));
}

#[test]
fn collection_expressions_drop_trailing_semicolons() {
    assert_eq!(collection_count_expression("document.links;;"), "(document.links).length");
    assert_eq!(indexed_element_expression("document.links;", 3), "(document.links)[3]");
    assert_eq!(indexed_element_expression("x", 0), "(x)[0]");
}

#[test]
fn evaluate_command_carries_expression() {
    let c = evaluate_command("1+1", true);
    assert_eq!(c.method, "Runtime.evaluate");
    assert_eq!(c.params.get_str("expression"), Some("1+1"));
    assert_eq!(c.params.get_bool("returnByValue"), Some(true));
}

#[test]
fn object_id_is_read_or_explained() {
    let ok = parse(r#"{"result":{"objectId":"obj-1"}}"#);
    assert_eq!(extract_object_id(&ok).unwrap(), "obj-1");
    let none = parse(r#"{"result":{"type":"object","subtype":"null"}}"#);
    assert!(matches!(extract_object_id(&none), Err(WebDriverError::NoSuchElement)));
    let missing =
        parse(r#"{"exceptionDetails":{"exception":{"description":"Error: no such element"}}}"#);
    assert!(matches!(extract_object_id(&missing), Err(WebDriverError::NoSuchElement)));
    let js = parse(r#"{"exceptionDetails":{"text":"Uncaught SyntaxError"}}"#);
    match extract_object_id(&js) {
        Err(WebDriverError::JavascriptError(m)) => assert_eq!(m, "Uncaught SyntaxError"),
        _ => panic!(),
    }
    let unknown = parse(r#"{"exceptionDetails":{}}"#);
    match extract_object_id(&unknown) {
        Err(WebDriverError::JavascriptError(m)) => assert_eq!(m, "Unknown error"),
        _ => panic!(),
    }
}

#[test]
fn element_references_and_responses() {
    let r = element_reference("obj-2".to_string());
    assert_eq!(r.get_str(ELEMENT_KEY), Some("obj-2"));
    let resp = element_response("obj-3".to_string());
    assert_eq!(resp.get("value").and_then(|v| v.get_str(ELEMENT_KEY)), Some("obj-3"));
    let opt = optional_reference(&parse(r#"{"result":{"objectId":"o"}}"#)).unwrap();
    assert_eq!(opt.get_str(ELEMENT_KEY), Some("o"));
    assert!(optional_reference(&parse(r#"{"result":{}}"#)).is_none());
    let many = elements_response(vec![element_reference("a".into()), element_reference("b".into())]);
    assert_eq!(many.get("value").and_then(|v| v.as_array()).map(|a| a.len()), Some(2));
}

#[test]
fn find_step_retries_only_a_missing_element_before_the_deadline() {
    let found = parse(r#"{"result":{"objectId":"x"}}"#);
    assert!(matches!(find_step(&found, false), FindStep::Found(ref s) if s == "x"));
    let missing = parse(r#"{"result":{}}"#);
    assert!(matches!(find_step(&missing, true), FindStep::Retry));
    assert!(matches!(
        find_step(&missing, false),
        FindStep::Failed(WebDriverError::NoSuchElement)
    ));
    let js = parse(r#"{"exceptionDetails":{"text":"bad"}}"#);
    assert!(matches!(
        find_step(&js, true),
        FindStep::Failed(WebDriverError::JavascriptError(_))
    ));
}

#[test]
fn elements_step_by_count_and_deadline() {
    assert!(matches!(elements_step(3, false), ElementsStep::Collect(3)));
    assert!(matches!(elements_step(3, true), ElementsStep::Collect(3)));
    assert!(matches!(elements_step(0, true), ElementsStep::Empty));
    assert!(matches!(elements_step(0, false), ElementsStep::Retry));
}

#[test]
fn count_is_read_from_the_result_value() {
    assert_eq!(extract_count(&parse(r#"{"result":{"value":4}}"#)), 4);
    assert_eq!(extract_count(&parse(r#"{"result":{"value":"4"}}"#)), 0);
    assert_eq!(extract_count(&parse(r#"{}"#)), 0);
}

#[test]
fn center_value_requires_a_value() {
    let v = center_value(&parse(r#"{"result":{"value":{"x":1,"y":2}}}"#)).unwrap();
    assert_eq!(v.get_u64("x"), Some(1));
    assert!(matches!(
        center_value(&parse(r#"{"result":{}}"#)),
        Err(WebDriverError::ElementNotInteractable)
    ));
}
