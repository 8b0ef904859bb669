use axum::http::StatusCode;
use webdriver_cdp::error::WebDriverError;
use webdriver_cdp::json::Json;

#[test]
fn error_codes_match_w3c_spec() {
    assert_eq!(WebDriverError::NoSuchElement.error_code(), "no such element");
    assert_eq!(
        WebDriverError::InvalidSessionId.error_code(),
        "invalid session id"
    );
    assert_eq!(WebDriverError::Timeout.error_code(), "timeout");
    assert_eq!(
        WebDriverError::StaleElementReference.error_code(),
        "stale element reference"
    );
}

#[test]
fn http_status_codes_are_correct() {
    assert_eq!(
        WebDriverError::NoSuchElement.http_status(),
        StatusCode::NOT_FOUND.as_u16()
    );
    assert_eq!(
        WebDriverError::InvalidArgument("x".into()).http_status(),
        StatusCode::BAD_REQUEST.as_u16()
    );
    assert_eq!(
        WebDriverError::SessionNotCreated("x".into()).http_status(),
        StatusCode::INTERNAL_SERVER_ERROR.as_u16()
    );
    assert_eq!(
        WebDriverError::Timeout.http_status(),
        StatusCode::REQUEST_TIMEOUT.as_u16()
    );
}

#[test]
fn error_response_has_w3c_structure() {
    let err = WebDriverError::NoSuchElement;
    assert_eq!(err.http_status(), StatusCode::NOT_FOUND.as_u16());
    let body = err.response_body();
    let value = body.get("value").expect("value");
    assert_eq!(value.get_str("error"), Some("no such element"));
    assert_eq!(value.get_str("message"), Some("Element not found"));
    assert_eq!(value.get_str("stacktrace"), Some(""));
}

#[test]
fn every_error_code_and_status() {
    let cases: Vec<(WebDriverError, &str, u16)> = vec![
        (WebDriverError::SessionNotCreated("a".into()), "session not created", 500),
        (WebDriverError::InvalidSessionId, "invalid session id", 404),
        (WebDriverError::NoSuchElement, "no such element", 404),
        (WebDriverError::NoSuchFrame, "no such frame", 404),
        (WebDriverError::StaleElementReference, "stale element reference", 404),
        (WebDriverError::ElementNotInteractable, "element not interactable", 400),
        (WebDriverError::InvalidArgument("a".into()), "invalid argument", 400),
        (WebDriverError::JavascriptError("a".into()), "javascript error", 500),
        (WebDriverError::Timeout, "timeout", 408),
        (WebDriverError::NoSuchWindow, "no such window", 404),
        (WebDriverError::NoSuchCookie("a".into()), "no such cookie", 404),
        (WebDriverError::UnknownCommand("a".into()), "unknown command", 404),
        (WebDriverError::UnknownError("a".into()), "unknown error", 500),
        (WebDriverError::NoSuchAlert, "no such alert", 404),
        (
            WebDriverError::ElementClickIntercepted("a".into()),
            "element click intercepted",
            400,
        ),
        (WebDriverError::InsecureCertificate, "insecure certificate", 400),
        (WebDriverError::MoveTargetOutOfBounds, "move target out of bounds", 400),
    ];
    for (e, code, status) in cases {
        assert_eq!(e.error_code(), code);
        assert_eq!(e.http_status(), status);
        assert!((400..600).contains(&e.http_status()));
    }
}

#[test]
fn messages_carry_text_or_fixed_wording() {
    assert_eq!(
        WebDriverError::JavascriptError("boom".into()).message(),
        "boom"
    );
    assert_eq!(WebDriverError::InvalidSessionId.message(), "Session not found");
    assert_eq!(WebDriverError::NoSuchFrame.message(), "Frame not found");
    assert_eq!(WebDriverError::StaleElementReference.message(), "Element is stale");
    assert_eq!(WebDriverError::Timeout.message(), "Operation timed out");
    assert_eq!(WebDriverError::NoSuchWindow.message(), "Window not found");
    assert_eq!(WebDriverError::NoSuchAlert.message(), "No alert present");
    assert_eq!(
        WebDriverError::InsecureCertificate.message(),
        "Insecure certificate"
    );
    assert_eq!(
        WebDriverError::MoveTargetOutOfBounds.message(),
        "Move target out of bounds"
    );
}

#[test]
fn display_string_joins_code_and_message() {
    assert_eq!(
        WebDriverError::NoSuchElement.display_string(),
        "no such element: Element not found"
    );
    assert_eq!(
        WebDriverError::UnknownError("x y".into()).display_string(),
        "unknown error: x y"
    );
}

#[test]
fn response_body_carries_custom_message() {
    let body = WebDriverError::InvalidArgument("bad input".into()).response_body();
    let expected = Json::Object(vec![(
        "value".to_string(),
        Json::Object(vec![
            ("error".to_string(), Json::Str("invalid argument".to_string())),
            ("message".to_string(), Json::Str("bad input".to_string())),
            ("stacktrace".to_string(), Json::Str(String::new())),
        ]),
    )]);
    assert_eq!(body, expected);
}
