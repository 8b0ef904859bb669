//! Navigation, page information, screenshots, window geometry and dialogs:
//! the commands they send and the answers they give.
use crate::cdp::{command, CdpCommand, CommandView};
use crate::error::{ErrorView, WebDriverError};
use crate::json::{
    empty_object, int_number, json_i64, json_str, json_string, json_u64, null_response, obj1, obj2,
    obj3, obj4, obj5, value_body, value_response, Json, JsonNumber, JsonView,
};
use vstd::prelude::*;

verus! {

/// The expression whose value is the page's address.
pub const LOCATION_HREF_JS: &'static str = "window.location.href";

/// The expression whose value is the page's host name.
pub const LOCATION_HOSTNAME_JS: &'static str = "window.location.hostname";

/// The expression whose value is the page's title.
pub const TITLE_JS: &'static str = "document.title";

/// The expression that goes back in history.
pub const BACK_JS: &'static str = "history.back()";

/// The expression that goes forward in history.
pub const FORWARD_JS: &'static str = "history.forward()";

/// The expression whose value is the page's markup.
pub const SOURCE_JS: &'static str = "document.documentElement.outerHTML";

/// The expression whose value is the size of the viewport, as JSON text.
pub const WINDOW_SIZE_JS: &'static str =
    "JSON.stringify({width: window.innerWidth, height: window.innerHeight})";

/// The command that navigates to the request's `url`, which it must have.
pub fn navigate_command(body: &Json) -> (r: Result<CdpCommand, WebDriverError>)
    ensures
        match body@.get_str("url"@) {
            Some(u) => r matches Ok(c) && c@ == (CommandView {
                method: "Page.navigate"@,
                params: JsonView::Object(seq![("url"@, JsonView::Str(u))]),
            }),
            None => r matches Err(e) && e@ == ErrorView::InvalidArgument(
                "Missing 'url' parameter"@,
            ),
        },
{
    match body.get_str("url") {
        Some(u) => Ok(command("Page.navigate", obj1("url", json_str(u)))),
        None => Err(WebDriverError::InvalidArgument(String::from_str("Missing 'url' parameter"))),
    }
}

/// The command that reloads the page.
pub fn reload_command() -> (r: CdpCommand)
    ensures
        r@ == (CommandView { method: "Page.reload"@, params: JsonView::Object(Seq::empty()) }),
{
    command("Page.reload", empty_object())
}

/// The string an evaluation returned, or the empty string.
pub open spec fn string_result(result: JsonView) -> Seq<char> {
    match result.result_value() {
        Some(v) => match v.as_str() {
            Some(s) => s,
            None => Seq::empty(),
        },
        None => Seq::empty(),
    }
}

pub fn extract_string_result(result: &Json) -> (r: String)
    ensures
        r@ == string_result(result@),
{
    match result.result_value() {
        Some(v) => match v.as_str() {
            Some(s) => String::from_str(s),
            None => String::new(),
        },
        None => String::new(),
    }
}

/// `{"value": <the string the evaluation returned>}`: the answer to get-url,
/// get-title, get-source, and the text, tag name and CSS value of an element.
pub fn string_value_response(result: &Json) -> (r: Json)
    ensures
        r@ == value_body(JsonView::Str(string_result(result@))),
{
    value_response(json_string(extract_string_result(result)))
}

/// The value an evaluation returned, or `null`: the answer to an element's
/// attribute and property.
pub open spec fn value_or_null(result: JsonView) -> JsonView {
    match result.result_value() {
        Some(v) => v,
        None => JsonView::Null,
    }
}

pub fn value_or_null_response(result: &Json) -> (r: Json)
    ensures
        r@ == value_body(value_or_null(result@)),
{
    let v = match result.result_value() {
        Some(v) => v.deep_clone(),
        None => Json::Null,
    };
    value_response(v)
}

/// The boolean an evaluation returned, or `default`.
pub open spec fn bool_result(result: JsonView, default: bool) -> bool {
    match result.result_value() {
        Some(v) => match v.as_bool() {
            Some(b) => b,
            None => default,
        },
        None => default,
    }
}

pub fn extract_bool_result(result: &Json, default: bool) -> (r: bool)
    ensures
        r == bool_result(result@, default),
{
    match result.result_value() {
        Some(v) => match v.as_bool() {
            Some(b) => b,
            None => default,
        },
        None => default,
    }
}

/// When the evaluation returned a boolean, that boolean is the answer,
/// whatever the default; the default answers only when no boolean came back.
pub proof fn bool_answer_law(result: JsonView, default: bool)
    ensures
        result.result_value() matches Some(JsonView::Bool(b)) ==> bool_result(result, default) == b,
        !(result.result_value() matches Some(JsonView::Bool(_))) ==> bool_result(result, default)
            == default,
        result.result_value() matches Some(JsonView::Bool(_)) ==> bool_result(result, true)
            == bool_result(result, false),
{
}

/// `{"value": <the boolean>}`: whether an element is enabled (by default
/// yes), selected or displayed (by default no).
pub fn bool_value_response(result: &Json, default: bool) -> (r: Json)
    ensures
        r@ == value_body(JsonView::Bool(bool_result(result@, default))),
{
    value_response(Json::Bool(extract_bool_result(result, default)))
}

pub open spec fn zero() -> JsonView {
    JsonView::Number(JsonNumber::PosInt(0))
}

/// The rectangle an evaluation returned, or the empty rectangle at the origin.
pub open spec fn rect_or_zero(result: JsonView) -> JsonView {
    match result.result_value() {
        Some(v) => v,
        None => JsonView::Object(
            seq![("x"@, zero()), ("y"@, zero()), ("width"@, zero()), ("height"@, zero())],
        ),
    }
}

pub fn rect_response(result: &Json) -> (r: Json)
    ensures
        r@ == value_body(rect_or_zero(result@)),
{
    let v = match result.result_value() {
        Some(v) => v.deep_clone(),
        None => obj4("x", json_u64(0), "y", json_u64(0), "width", json_u64(0), "height", json_u64(0)),
    };
    value_response(v)
}

// -------------------------------------------------------------- screenshots

/// The command that captures the viewport as PNG.
pub fn screenshot_command() -> (r: CdpCommand)
    ensures
        r@ == (CommandView {
            method: "Page.captureScreenshot"@,
            params: JsonView::Object(seq![("format"@, JsonView::Str("png"@))]),
        }),
{
    command("Page.captureScreenshot", obj1("format", json_str("png")))
}

/// The command that captures the rectangle `(x, y, width, height)` as PNG.
pub fn clip_screenshot_command(x: JsonNumber, y: JsonNumber, width: JsonNumber, height: JsonNumber) -> (r: CdpCommand)
    ensures
        r@ == (CommandView {
            method: "Page.captureScreenshot"@,
            params: JsonView::Object(
                seq![
                    ("format"@, JsonView::Str("png"@)),
                    ("clip"@, JsonView::Object(
                        seq![
                            ("x"@, JsonView::Number(x)),
                            ("y"@, JsonView::Number(y)),
                            ("width"@, JsonView::Number(width)),
                            ("height"@, JsonView::Number(height)),
                            ("scale"@, JsonView::Number(JsonNumber::PosInt(1))),
                        ],
                    )),
                ],
            ),
        }),
{
    let clip = obj5(
        "x",
        Json::Number(x),
        "y",
        Json::Number(y),
        "width",
        Json::Number(width),
        "height",
        Json::Number(height),
        "scale",
        json_u64(1),
    );
    command("Page.captureScreenshot", obj2("format", json_str("png"), "clip", clip))
}

/// The image data of a capture, or the empty string.
pub open spec fn screenshot_data(result: JsonView) -> Seq<char> {
    match result.get_str("data"@) {
        Some(d) => d,
        None => Seq::empty(),
    }
}

pub fn screenshot_response(result: &Json) -> (r: Json)
    ensures
        r@ == value_body(JsonView::Str(screenshot_data(result@))),
{
    let d = match result.get_str("data") {
        Some(d) => String::from_str(d),
        None => String::new(),
    };
    value_response(json_string(d))
}

/// The rectangle of an element that an evaluation returned; without one the
/// element screenshot fails.
pub fn element_rect_value(result: &Json) -> (r: Result<Json, WebDriverError>)
    ensures
        match result@.result_value() {
            Some(v) => r matches Ok(j) && j@ == v,
            None => r matches Err(e) && e@ == ErrorView::UnknownError("Failed to get element rect"@),
        },
{
    match result.result_value() {
        Some(v) => Ok(v.deep_clone()),
        None => Err(WebDriverError::UnknownError(String::from_str("Failed to get element rect"))),
    }
}

// ------------------------------------------------------------------ window

/// The size that a set-window-rect request asks for: its integer `width`
/// and `height`, by default 1800 by 1200.
pub open spec fn requested_size(body: JsonView) -> (i64, i64) {
    (
        match body.get_i64("width"@) {
            Some(w) => w,
            None => 1800,
        },
        match body.get_i64("height"@) {
            Some(h) => h,
            None => 1200,
        },
    )
}

pub fn window_rect_request(body: &Json) -> (r: (i64, i64))
    ensures
        r == requested_size(body@),
{
    let w = match body.get_i64("width") {
        Some(w) => w,
        None => 1800,
    };
    let h = match body.get_i64("height") {
        Some(h) => h,
        None => 1200,
    };
    (w, h)
}

/// The command that sets the viewport to `width` by `height`.
pub fn device_metrics_command(width: i64, height: i64) -> (r: CdpCommand)
    ensures
        r@ == (CommandView {
            method: "Emulation.setDeviceMetricsOverride"@,
            params: JsonView::Object(
                seq![
                    ("width"@, JsonView::Number(int_number(width))),
                    ("height"@, JsonView::Number(int_number(height))),
                    ("deviceScaleFactor"@, JsonView::Number(JsonNumber::PosInt(1))),
                    ("mobile"@, JsonView::Bool(false)),
                ],
            ),
        }),
{
    command(
        "Emulation.setDeviceMetricsOverride",
        obj4(
            "width",
            json_i64(width),
            "height",
            json_i64(height),
            "deviceScaleFactor",
            json_u64(1),
            "mobile",
            Json::Bool(false),
        ),
    )
}

/// `{"value": {"x": 0, "y": 0, "width": w, "height": h}}`.
pub open spec fn window_rect_view(width: i64, height: i64) -> JsonView {
    value_body(
        JsonView::Object(
            seq![
                ("x"@, zero()),
                ("y"@, zero()),
                ("width"@, JsonView::Number(int_number(width))),
                ("height"@, JsonView::Number(int_number(height))),
            ],
        ),
    )
}

pub fn window_rect_response(width: i64, height: i64) -> (r: Json)
    ensures
        r@ == window_rect_view(width, height),
{
    value_response(
        obj4("x", json_u64(0), "y", json_u64(0), "width", json_i64(width), "height", json_i64(height)),
    )
}

/// The JSON text of the viewport size that an evaluation returned, or the
/// default size.
pub open spec fn window_size_text_view(result: JsonView) -> Seq<char> {
    match result.result_value() {
        Some(v) => match v.as_str() {
            Some(s) => s,
            None => "{\"width\":1800,\"height\":1200}"@,
        },
        None => "{\"width\":1800,\"height\":1200}"@,
    }
}

pub fn window_size_text(result: &Json) -> (r: String)
    ensures
        r@ == window_size_text_view(result@),
{
    match result.result_value() {
        Some(v) => match v.as_str() {
            Some(s) => String::from_str(s),
            None => String::from_str("{\"width\":1800,\"height\":1200}"),
        },
        None => String::from_str("{\"width\":1800,\"height\":1200}"),
    }
}

/// The window rectangle from the parsed viewport size (`None` where the
/// text was no JSON): its integer width and height, by default 1800 by 1200.
pub fn window_size_response(size: Option<&Json>) -> (r: Json)
    ensures
        r@ == match size {
            Some(s) => window_rect_view(requested_size(s@).0, requested_size(s@).1),
            None => window_rect_view(1800, 1200),
        },
{
    match size {
        Some(s) => {
            let (w, h) = window_rect_request(s);
            window_rect_response(w, h)
        },
        None => window_rect_response(1800, 1200),
    }
}

// ----------------------------------------------------------------- dialogs

/// The command that accepts or dismisses the open dialog, answering a
/// prompt with `prompt_text` where given.
pub fn dialog_command(accept: bool, prompt_text: Option<&str>) -> (r: CdpCommand)
    ensures
        r@ == (CommandView {
            method: "Page.handleJavaScriptDialog"@,
            params: match prompt_text {
                Some(t) => JsonView::Object(
                    seq![("accept"@, JsonView::Bool(accept)), ("promptText"@, JsonView::Str(t@))],
                ),
                None => JsonView::Object(seq![("accept"@, JsonView::Bool(accept))]),
            },
        }),
{
    let p = match prompt_text {
        Some(t) => obj2("accept", Json::Bool(accept), "promptText", json_str(t)),
        None => obj1("accept", Json::Bool(accept)),
    };
    command("Page.handleJavaScriptDialog", p)
}

/// The text of a send-alert-text request, or the empty string.
pub fn alert_text_from_body(body: &Json) -> (r: String)
    ensures
        r@ == match body@.get_str("text"@) {
            Some(t) => t,
            None => Seq::empty(),
        },
{
    match body.get_str("text") {
        Some(t) => String::from_str(t),
        None => String::new(),
    }
}

/// The answer to a dialog command: any failure means that no dialog is open.
pub fn dialog_outcome(sent: Result<Json, WebDriverError>) -> (r: Result<Json, WebDriverError>)
    ensures
        match sent {
            Ok(_) => r matches Ok(j) && j@ == value_body(JsonView::Null),
            Err(_) => r matches Err(e) && e@ == ErrorView::NoSuchAlert,
        },
{
    match sent {
        Ok(_) => Ok(null_response()),
        Err(_) => Err(WebDriverError::NoSuchAlert),
    }
}

/// The answer to a get-alert-text request: the text is not tracked, so it
/// is always empty.
pub fn alert_text_response() -> (r: Json)
    ensures
        r@ == value_body(JsonView::Str(Seq::empty())),
{
    value_response(json_string(String::new()))
}

/// The answer to a status request.
pub fn status_response() -> (r: Json)
    ensures
        r@ == value_body(
            JsonView::Object(
                seq![
                    ("ready"@, JsonView::Bool(true)),
                    ("message"@, JsonView::Str("webdriver-cdp"@)),
                ],
            ),
        ),
{
    value_response(obj2("ready", Json::Bool(true), "message", json_str("webdriver-cdp")))
}

} // verus!
