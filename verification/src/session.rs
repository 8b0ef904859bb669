//! Sessions: their timeouts, the capabilities that a new session reports,
//! the CDP commands a session sends on behalf of its handlers, and its
//! single window.
use crate::cdp::{command, command_views, CdpCommand, CommandView};
use crate::error::{ErrorView, WebDriverError};
use crate::input::ELEMENT_KEY;
use crate::json::{
    add_entry, add_item, empty_array, empty_object, entries_view, json_array, json_object,
    json_str, json_string, json_u64, new_entries, new_items, null_response, obj1, obj3, obj5,
    value_body, value_response, views, Json, JsonNumber, JsonView,
};
use vstd::prelude::*;

verus! {

/// The timeouts of a session, in milliseconds.
#[derive(Clone, Copy, Debug, PartialEq, Eq, Structural)]
pub struct SessionTimeouts {
    pub implicit_wait_ms: u64,
    pub page_load_timeout_ms: u64,
    pub script_timeout_ms: u64,
}

/// The timeouts a request asks for; `None` leaves a timeout as it is.
#[derive(Clone, Copy, Debug, PartialEq, Eq, Structural)]
pub struct RequestedTimeouts {
    pub implicit: Option<u64>,
    pub page_load: Option<u64>,
    pub script: Option<u64>,
}

/// The timeouts of a new session: no implicit wait, five minutes for a page
/// load, thirty seconds for a script.
pub open spec fn default_timeouts() -> SessionTimeouts {
    SessionTimeouts { implicit_wait_ms: 0, page_load_timeout_ms: 300_000, script_timeout_ms: 30_000 }
}

pub fn new_timeouts() -> (r: SessionTimeouts)
    ensures
        r == default_timeouts(),
{
    SessionTimeouts { implicit_wait_ms: 0, page_load_timeout_ms: 300_000, script_timeout_ms: 30_000 }
}

/// `t` with the requested timeouts applied.
pub open spec fn applied(t: SessionTimeouts, req: RequestedTimeouts) -> SessionTimeouts {
    SessionTimeouts {
        implicit_wait_ms: match req.implicit {
            Some(v) => v,
            None => t.implicit_wait_ms,
        },
        page_load_timeout_ms: match req.page_load {
            Some(v) => v,
            None => t.page_load_timeout_ms,
        },
        script_timeout_ms: match req.script {
            Some(v) => v,
            None => t.script_timeout_ms,
        },
    }
}

pub fn apply_timeouts(t: SessionTimeouts, req: RequestedTimeouts) -> (r: SessionTimeouts)
    ensures
        r == applied(t, req),
{
    SessionTimeouts {
        implicit_wait_ms: match req.implicit {
            Some(v) => v,
            None => t.implicit_wait_ms,
        },
        page_load_timeout_ms: match req.page_load {
            Some(v) => v,
            None => t.page_load_timeout_ms,
        },
        script_timeout_ms: match req.script {
            Some(v) => v,
            None => t.script_timeout_ms,
        },
    }
}

/// The timeouts that a timeouts object asks for: its non-negative integer
/// `implicit`, `pageLoad` and `script` entries.
pub open spec fn requested_in(t: Option<JsonView>) -> RequestedTimeouts {
    match t {
        Some(o) => RequestedTimeouts {
            implicit: o.get_u64("implicit"@),
            page_load: o.get_u64("pageLoad"@),
            script: o.get_u64("script"@),
        },
        None => RequestedTimeouts { implicit: None, page_load: None, script: None },
    }
}

pub fn read_requested(t: Option<&Json>) -> (r: RequestedTimeouts)
    ensures
        r == requested_in(
            match t {
                Some(o) => Some(o@),
                None => None,
            },
        ),
{
    match t {
        Some(o) => RequestedTimeouts {
            implicit: o.get_u64("implicit"),
            page_load: o.get_u64("pageLoad"),
            script: o.get_u64("script"),
        },
        None => RequestedTimeouts { implicit: None, page_load: None, script: None },
    }
}

pub open spec fn then_get(o: Option<JsonView>, key: Seq<char>) -> Option<JsonView> {
    match o {
        Some(v) => v.get(key),
        None => None,
    }
}

/// Where a new-session request puts its timeouts: in
/// `capabilities.alwaysMatch`, else in the first entry of
/// `capabilities.firstMatch`, else in `desiredCapabilities`.
pub open spec fn capabilities_timeouts(body: JsonView) -> Option<JsonView> {
    let always = then_get(then_get(body.get("capabilities"@), "alwaysMatch"@), "timeouts"@);
    let first = match then_get(body.get("capabilities"@), "firstMatch"@) {
        Some(f) => then_get(f.at(0), "timeouts"@),
        None => None,
    };
    match always {
        Some(t) => Some(t),
        None => match first {
            Some(t) => Some(t),
            None => then_get(body.get("desiredCapabilities"@), "timeouts"@),
        },
    }
}

fn then_get_exec<'a>(o: Option<&'a Json>, key: &str) -> (r: Option<&'a Json>)
    ensures
        match r {
            Some(x) => then_get(
                match o {
                    Some(v) => Some(v@),
                    None => None,
                },
                key@,
            ) == Some(x@),
            None => then_get(
                match o {
                    Some(v) => Some(v@),
                    None => None,
                },
                key@,
            ) is None,
        },
{
    match o {
        Some(v) => v.get(key),
        None => None,
    }
}

/// The timeouts that a new-session request asks for.
pub fn extract_timeouts(body: &Json) -> (r: RequestedTimeouts)
    ensures
        r == requested_in(capabilities_timeouts(body@)),
{
    let caps = body.get("capabilities");
    let always = then_get_exec(then_get_exec(caps, "alwaysMatch"), "timeouts");
    let t = match always {
        Some(t) => Some(t),
        None => {
            let first = match then_get_exec(caps, "firstMatch") {
                Some(f) => then_get_exec(f.at(0), "timeouts"),
                None => None,
            };
            match first {
                Some(t) => Some(t),
                None => then_get_exec(body.get("desiredCapabilities"), "timeouts"),
            }
        },
    };
    read_requested(t)
}

/// The timeouts that a set-timeouts request asks for.
pub fn timeouts_in_body(body: &Json) -> (r: RequestedTimeouts)
    ensures
        r == requested_in(Some(body@)),
{
    read_requested(Some(body))
}

pub open spec fn timeouts_view(t: SessionTimeouts) -> JsonView {
    JsonView::Object(
        seq![
            ("implicit"@, JsonView::Number(JsonNumber::PosInt(t.implicit_wait_ms))),
            ("pageLoad"@, JsonView::Number(JsonNumber::PosInt(t.page_load_timeout_ms))),
            ("script"@, JsonView::Number(JsonNumber::PosInt(t.script_timeout_ms))),
        ],
    )
}

fn timeouts_json(t: SessionTimeouts) -> (r: Json)
    ensures
        r@ == timeouts_view(t),
{
    obj3(
        "implicit",
        json_u64(t.implicit_wait_ms),
        "pageLoad",
        json_u64(t.page_load_timeout_ms),
        "script",
        json_u64(t.script_timeout_ms),
    )
}

/// The answer to a get-timeouts request: `{"value": {"implicit", "pageLoad", "script"}}`.
pub fn timeouts_response(t: SessionTimeouts) -> (r: Json)
    ensures
        r@ == value_body(timeouts_view(t)),
{
    value_response(timeouts_json(t))
}

/// A session's own state: its id, the id of its browser target, and its timeouts.
pub struct SessionInfo {
    pub session_id: String,
    pub target_id: String,
    pub timeouts: SessionTimeouts,
}

impl SessionInfo {
    /// A session with the default timeouts.
    pub fn new(session_id: String, target_id: String) -> (r: SessionInfo)
        ensures
            r.session_id@ == session_id@,
            r.target_id@ == target_id@,
            r.timeouts == default_timeouts(),
    {
        SessionInfo { session_id, target_id, timeouts: new_timeouts() }
    }

    /// A session with the default timeouts, changed as the request asks.
    pub fn build(session_id: String, target_id: String, req: RequestedTimeouts) -> (r: SessionInfo)
        ensures
            r.session_id@ == session_id@,
            r.target_id@ == target_id@,
            r.timeouts == applied(default_timeouts(), req),
    {
        let mut s = SessionInfo::new(session_id, target_id);
        s.timeouts = apply_timeouts(s.timeouts, req);
        s
    }

    /// Applies a set-timeouts request.
    pub fn set_timeouts(&mut self, body: &Json)
        ensures
            final(self).timeouts == applied(old(self).timeouts, requested_in(Some(body@))),
            final(self).session_id == old(self).session_id,
            final(self).target_id == old(self).target_id,
    {
        let req = timeouts_in_body(body);
        self.timeouts = apply_timeouts(self.timeouts, req);
    }

    /// The answer to a get-timeouts request.
    pub fn get_timeouts(&self) -> (r: Json)
        ensures
            r@ == value_body(timeouts_view(self.timeouts)),
    {
        timeouts_response(self.timeouts)
    }

    /// The answer to a get-window-handle request: the target id.
    pub fn window_handle_response(&self) -> (r: Json)
        ensures
            r@ == value_body(JsonView::Str(self.target_id@)),
    {
        value_response(json_string(self.target_id.clone()))
    }

    /// The answer to a get-window-handles request: the one target id.
    pub fn window_handles_response(&self) -> (r: Json)
        ensures
            r@ == value_body(JsonView::Array(seq![JsonView::Str(self.target_id@)])),
    {
        let mut items = new_items();
        add_item(&mut items, json_string(self.target_id.clone()));
        let a = json_array(items);
        assert(a@->Array_0 =~= seq![JsonView::Str(self.target_id@)]);
        value_response(a)
    }

    /// A switch-to-window request: it must name a handle, and the only
    /// handle is the session's target.
    pub fn switch_to_window(&self, body: &Json) -> (r: Result<Json, WebDriverError>)
        ensures
            match body@.get_str("handle"@) {
                None => r matches Err(e) && e@ == ErrorView::InvalidArgument("Missing 'handle'"@),
                Some(h) => if h == self.target_id@ {
                    r matches Ok(j) && j@ == value_body(JsonView::Null)
                } else {
                    r matches Err(e) && e@ == ErrorView::NoSuchWindow
                },
            },
    {
        let handle = match body.get_str("handle") {
            Some(h) => String::from_str(h),
            None => {
                return Err(WebDriverError::InvalidArgument(String::from_str("Missing 'handle'")));
            },
        };
        if handle != self.target_id {
            return Err(WebDriverError::NoSuchWindow);
        }
        Ok(null_response())
    }
}

/// The answer to a close-window request: no windows are left.
pub fn closed_window_response() -> (r: Json)
    ensures
        r@ == value_body(JsonView::Array(Seq::empty())),
{
    value_response(empty_array())
}

/// A switch-to-frame request: the top frame (no id or `null`), a frame by
/// index or by element are accepted (and change nothing); any other id names
/// no frame.
pub open spec fn frame_switch(body: JsonView) -> Result<JsonView, ErrorView> {
    match body.get("id"@) {
        None => Ok(value_body(JsonView::Null)),
        Some(JsonView::Null) => Ok(value_body(JsonView::Null)),
        Some(JsonView::Number(_)) => Ok(value_body(JsonView::Null)),
        Some(obj) => if obj.get(ELEMENT_KEY@) is Some {
            Ok(value_body(JsonView::Null))
        } else {
            Err(ErrorView::NoSuchFrame)
        },
    }
}

pub open spec fn json_result_view(r: Result<Json, WebDriverError>) -> Result<JsonView, ErrorView> {
    match r {
        Ok(j) => Ok(j@),
        Err(e) => Err(e@),
    }
}

pub fn switch_to_frame(body: &Json) -> (r: Result<Json, WebDriverError>)
    ensures
        json_result_view(r) == frame_switch(body@),
{
    match body.get("id") {
        None => Ok(null_response()),
        Some(Json::Null) => Ok(null_response()),
        Some(Json::Number(_)) => Ok(null_response()),
        Some(obj) => {
            if obj.get(ELEMENT_KEY).is_some() {
                Ok(null_response())
            } else {
                Err(WebDriverError::NoSuchFrame)
            }
        },
    }
}

/// The capabilities that a new session reports, with the timeouts it asked for.
pub open spec fn capabilities_view(session_id: Seq<char>, req: RequestedTimeouts) -> JsonView {
    value_body(
        JsonView::Object(
            seq![
                ("sessionId"@, JsonView::Str(session_id)),
                ("capabilities"@, JsonView::Object(
                    seq![
                        ("browserName"@, JsonView::Str("chrome"@)),
                        ("browserVersion"@, JsonView::Str(""@)),
                        ("platformName"@, JsonView::Str("linux"@)),
                        ("acceptInsecureCerts"@, JsonView::Bool(true)),
                        ("pageLoadStrategy"@, JsonView::Str("none"@)),
                        ("timeouts"@, timeouts_view(applied(default_timeouts(), req))),
                        ("proxy"@, JsonView::Object(Seq::empty())),
                        ("setWindowRect"@, JsonView::Bool(true)),
                        ("strictFileInteractability"@, JsonView::Bool(false)),
                        ("unhandledPromptBehavior"@, JsonView::Str("dismiss and notify"@)),
                    ],
                )),
            ],
        ),
    )
}

/// The answer to a new-session request.
pub fn session_capabilities_response(session_id: &str, req: RequestedTimeouts) -> (r: Json)
    ensures
        r@ == capabilities_view(session_id@, req),
{
    let t = apply_timeouts(new_timeouts(), req);
    let tj = timeouts_json(t);
    let ghost tv = tj@;
    let mut c = new_entries();
    add_entry(&mut c, "browserName", json_str("chrome"));
    add_entry(&mut c, "browserVersion", json_str(""));
    add_entry(&mut c, "platformName", json_str("linux"));
    add_entry(&mut c, "acceptInsecureCerts", Json::Bool(true));
    add_entry(&mut c, "pageLoadStrategy", json_str("none"));
    add_entry(&mut c, "timeouts", tj);
    add_entry(&mut c, "proxy", empty_object());
    add_entry(&mut c, "setWindowRect", Json::Bool(true));
    add_entry(&mut c, "strictFileInteractability", Json::Bool(false));
    add_entry(&mut c, "unhandledPromptBehavior", json_str("dismiss and notify"));
    assert(entries_view(c@) =~= seq![
        ("browserName"@, JsonView::Str("chrome"@)),
        ("browserVersion"@, JsonView::Str(""@)),
        ("platformName"@, JsonView::Str("linux"@)),
        ("acceptInsecureCerts"@, JsonView::Bool(true)),
        ("pageLoadStrategy"@, JsonView::Str("none"@)),
        ("timeouts"@, tv),
        ("proxy"@, JsonView::Object(Seq::empty())),
        ("setWindowRect"@, JsonView::Bool(true)),
        ("strictFileInteractability"@, JsonView::Bool(false)),
        ("unhandledPromptBehavior"@, JsonView::Str("dismiss and notify"@)),
    ]);
    let caps = json_object(c);
    let ghost cv = caps@;
    let mut v = new_entries();
    add_entry(&mut v, "sessionId", json_str(session_id));
    add_entry(&mut v, "capabilities", caps);
    assert(entries_view(v@) =~= seq![("sessionId"@, JsonView::Str(session_id@)), ("capabilities"@, cv)]);
    value_response(json_object(v))
}

/// The timeouts that a new session reports among its capabilities are the
/// timeouts it is built with (`SessionInfo::build`), which get-timeouts
/// then reports.
pub proof fn reported_timeouts_are_session_timeouts(session_id: Seq<char>, req: RequestedTimeouts)
    ensures
        ({
            let value = capabilities_view(session_id, req).get("value"@);
            &&& value is Some
            &&& value.unwrap().get("capabilities"@) is Some
            &&& value.unwrap().get("capabilities"@).unwrap().get("timeouts"@) == Some(
                timeouts_view(applied(default_timeouts(), req)),
            )
        }),
{
    reveal_with_fuel(crate::json::lookup, 7);
    reveal_strlit("sessionId");
    reveal_strlit("capabilities");
    reveal_strlit("timeouts");
    reveal_strlit("browserName");
    reveal_strlit("browserVersion");
    reveal_strlit("platformName");
    reveal_strlit("acceptInsecureCerts");
    reveal_strlit("pageLoadStrategy");
    assert("sessionId"@ != "capabilities"@) by {
        assert("sessionId"@.len() != "capabilities"@.len());
    }
    assert("browserName"@ != "timeouts"@) by {
        assert("browserName"@.len() != "timeouts"@.len());
    }
    assert("browserVersion"@ != "timeouts"@) by {
        assert("browserVersion"@.len() != "timeouts"@.len());
    }
    assert("platformName"@ != "timeouts"@) by {
        assert("platformName"@.len() != "timeouts"@.len());
    }
    assert("acceptInsecureCerts"@ != "timeouts"@) by {
        assert("acceptInsecureCerts"@.len() != "timeouts"@.len());
    }
    assert("pageLoadStrategy"@ != "timeouts"@) by {
        assert("pageLoadStrategy"@.len() != "timeouts"@.len());
    }
}

/// A timeout that a set-timeouts request gives is the one that a later
/// get-timeouts request reports; the others keep their values.
pub proof fn timeouts_read_back(t: SessionTimeouts, body: JsonView)
    ensures
        ({
            let after = applied(t, requested_in(Some(body)));
            &&& after.implicit_wait_ms == match body.get_u64("implicit"@) {
                Some(v) => v,
                None => t.implicit_wait_ms,
            }
            &&& after.page_load_timeout_ms == match body.get_u64("pageLoad"@) {
                Some(v) => v,
                None => t.page_load_timeout_ms,
            }
            &&& after.script_timeout_ms == match body.get_u64("script"@) {
                Some(v) => v,
                None => t.script_timeout_ms,
            }
        }),
{
}

/// The CDP domains a new session enables, in order.
pub open spec fn enable_domains_view() -> Seq<CommandView> {
    seq![
        CommandView { method: "Page.enable"@, params: JsonView::Object(Seq::empty()) },
        CommandView { method: "Runtime.enable"@, params: JsonView::Object(Seq::empty()) },
        CommandView { method: "Network.enable"@, params: JsonView::Object(Seq::empty()) },
    ]
}

pub fn enable_domains_commands() -> (r: Vec<CdpCommand>)
    ensures
        command_views(r@) == enable_domains_view(),
{
    let mut v: Vec<CdpCommand> = Vec::new();
    v.push(command("Page.enable", empty_object()));
    v.push(command("Runtime.enable", empty_object()));
    v.push(command("Network.enable", empty_object()));
    assert(command_views(v@) =~= enable_domains_view());
    v
}

/// `Runtime.evaluate` of `expression` as `Session::evaluate_js` sends it.
pub open spec fn evaluate_js_view(expression: Seq<char>, return_by_value: bool) -> CommandView {
    CommandView {
        method: "Runtime.evaluate"@,
        params: JsonView::Object(
            seq![
                ("expression"@, JsonView::Str(expression)),
                ("returnByValue"@, JsonView::Bool(return_by_value)),
                ("awaitPromise"@, JsonView::Bool(false)),
            ],
        ),
    }
}

pub fn evaluate_js_command(expression: &str, return_by_value: bool) -> (r: CdpCommand)
    ensures
        r@ == evaluate_js_view(expression@, return_by_value),
{
    command(
        "Runtime.evaluate",
        obj3(
            "expression",
            json_str(expression),
            "returnByValue",
            Json::Bool(return_by_value),
            "awaitPromise",
            Json::Bool(false),
        ),
    )
}

/// The CDP call arguments for the given values: `{"value": v}` each.
pub open spec fn call_arguments(args: Seq<JsonView>) -> Seq<JsonView> {
    Seq::new(args.len(), |i: int| JsonView::Object(seq![("value"@, args[i])]))
}

/// `Runtime.callFunctionOn` of a function on a remote object.
pub open spec fn call_function_view(
    object_id: Seq<char>,
    function_declaration: Seq<char>,
    args: Seq<JsonView>,
    return_by_value: bool,
) -> CommandView {
    CommandView {
        method: "Runtime.callFunctionOn"@,
        params: JsonView::Object(
            seq![
                ("objectId"@, JsonView::Str(object_id)),
                ("functionDeclaration"@, JsonView::Str(function_declaration)),
                ("arguments"@, JsonView::Array(call_arguments(args))),
                ("returnByValue"@, JsonView::Bool(return_by_value)),
                ("awaitPromise"@, JsonView::Bool(false)),
            ],
        ),
    }
}

/// The command that calls a function on a remote object.
pub fn call_function_on_command(
    object_id: &str,
    function_declaration: &str,
    args: Vec<Json>,
    return_by_value: bool,
) -> (r: CdpCommand)
    ensures
        r@ == call_function_view(object_id@, function_declaration@, views(args@), return_by_value),
{
    let ghost av = views(args@);
    let mut wrapped = new_items();
    let mut i: usize = 0;
    while i < args.len()
        invariant
            i <= args.len(),
            av == views(args@),
            views(wrapped@) == call_arguments(av).subrange(0, i as int),
        decreases args.len() - i,
    {
        let a = args[i].deep_clone();
        add_item(&mut wrapped, obj1("value", a));
        assert(views(wrapped@) =~= call_arguments(av).subrange(0, i + 1));
        i = i + 1;
    }
    assert(call_arguments(av).subrange(0, args.len() as int) =~= call_arguments(av));
    let p = obj5(
        "objectId",
        json_str(object_id),
        "functionDeclaration",
        json_str(function_declaration),
        "arguments",
        json_array(wrapped),
        "returnByValue",
        Json::Bool(return_by_value),
        "awaitPromise",
        Json::Bool(false),
    );
    command("Runtime.callFunctionOn", p)
}

} // verus!
