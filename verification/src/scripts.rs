//! Executing the user's JavaScript: reading the request, wrapping the script
//! so that it runs with its arguments, and reading what it returned.
use crate::cdp::{command, CdpCommand, CommandView};
use crate::error::{ErrorView, WebDriverError};
use crate::json::{add_item, json_str, new_items, obj3, views, Json, JsonView};
use crate::session::json_result_view;
use crate::text::{cat5, decimal, decimal_string};
use vstd::prelude::*;

verus! {

/// The script and arguments of an execute request: its `script`, which it
/// must have, and its `args` array (none by default).
pub open spec fn script_request(body: JsonView) -> Result<(Seq<char>, Seq<JsonView>), ErrorView> {
    match body.get_str("script"@) {
        None => Err(ErrorView::InvalidArgument("Missing 'script' parameter"@)),
        Some(s) => Ok(
            (
                s,
                match body.get_array("args"@) {
                    Some(a) => a,
                    None => Seq::empty(),
                },
            ),
        ),
    }
}

/// Reads the script and arguments of an execute request.
pub fn extract_script_and_args(body: &Json) -> (r: Result<(String, Vec<Json>), WebDriverError>)
    ensures
        match script_request(body@) {
            Ok((s, a)) => r matches Ok((rs, ra)) && rs@ == s && views(ra@) == a,
            Err(e) => r matches Err(re) && re@ == e,
        },
{
    let script = match body.get_str("script") {
        Some(s) => String::from_str(s),
        None => {
            return Err(WebDriverError::InvalidArgument(String::from_str("Missing 'script' parameter")));
        },
    };
    let mut args = new_items();
    if let Some(a) = body.get_array("args") {
        let mut i: usize = 0;
        while i < a.len()
            invariant
                i <= a.len(),
                views(args@) == views(a@).subrange(0, i as int),
            decreases a.len() - i,
        {
            add_item(&mut args, a[i].deep_clone());
            assert(views(args@) =~= views(a@).subrange(0, i + 1));
            i = i + 1;
        }
        assert(views(a@).subrange(0, a.len() as int) =~= views(a@));
    }
    Ok((script, args))
}

/// The expression that runs a synchronous script with its arguments
/// (`args_json` is the JSON text of the argument array).
pub open spec fn sync_script(script: Seq<char>, args_json: Seq<char>) -> Seq<char> {
    "(() => { const __args = "@ + args_json + "; return (function() { "@ + script
        + " }).apply(null, __args); })()"@
}

pub fn wrap_sync_script(script: &str, args_json: &str) -> (r: String)
    ensures
        r@ == sync_script(script@, args_json@),
{
    cat5(
        "(() => { const __args = ",
        args_json,
        "; return (function() { ",
        script,
        " }).apply(null, __args); })()",
    )
}

/// The promise that runs an asynchronous script with its arguments and a
/// completion callback, and rejects after `timeout_ms`.
pub open spec fn async_script(script: Seq<char>, args_json: Seq<char>, timeout_ms: u64) -> Seq<char> {
    "new Promise((resolve, reject) => { const __args = "@ + args_json
        + "; __args.push(resolve); setTimeout(() => reject(new Error('Script timeout')), "@
        + decimal(timeout_ms as nat) + "); (function() { "@ + script
        + " }).apply(null, __args); })"@
}

pub fn wrap_async_script(script: &str, args_json: &str, timeout_ms: u64) -> (r: String)
    ensures
        r@ == async_script(script@, args_json@, timeout_ms),
{
    let t = decimal_string(timeout_ms);
    let head = cat5(
        "new Promise((resolve, reject) => { const __args = ",
        args_json,
        "; __args.push(resolve); setTimeout(() => reject(new Error('Script timeout')), ",
        t.as_str(),
        "); (function() { ",
    );
    let mut s = head;
    s.append(script);
    s.append(" }).apply(null, __args); })");
    s
}

/// The command that evaluates a wrapped script by value, awaiting its
/// promise for an asynchronous script.
pub fn execute_command(wrapped: &str, await_promise: bool) -> (r: CdpCommand)
    ensures
        r@ == (CommandView {
            method: "Runtime.evaluate"@,
            params: JsonView::Object(
                seq![
                    ("expression"@, JsonView::Str(wrapped@)),
                    ("returnByValue"@, JsonView::Bool(true)),
                    ("awaitPromise"@, JsonView::Bool(await_promise)),
                ],
            ),
        }),
{
    command(
        "Runtime.evaluate",
        obj3(
            "expression",
            json_str(wrapped),
            "returnByValue",
            Json::Bool(true),
            "awaitPromise",
            Json::Bool(await_promise),
        ),
    )
}

/// What a script returned: a JavaScript error with the exception's `text`
/// (else its description, else "JavaScript error") when it threw, else its
/// value (`null` where there is none).
pub open spec fn script_outcome(result: JsonView) -> Result<JsonView, ErrorView> {
    match result.get("exceptionDetails"@) {
        Some(ex) => {
            let v = match ex.get("text"@) {
                Some(t) => Some(t),
                None => match ex.get("exception"@) {
                    Some(e) => e.get("description"@),
                    None => None,
                },
            };
            Err(
                ErrorView::JavascriptError(
                    match v {
                        Some(x) => match x.as_str() {
                            Some(s) => s,
                            None => "JavaScript error"@,
                        },
                        None => "JavaScript error"@,
                    },
                ),
            )
        },
        None => Ok(
            match result.result_value() {
                Some(v) => v,
                None => JsonView::Null,
            },
        ),
    }
}

pub fn extract_result_or_error(result: &Json) -> (r: Result<Json, WebDriverError>)
    ensures
        json_result_view(r) == script_outcome(result@),
{
    if let Some(exception) = result.get("exceptionDetails") {
        let v = match exception.get("text") {
            Some(t) => Some(t),
            None => match exception.get("exception") {
                Some(e) => e.get("description"),
                None => None,
            },
        };
        let msg = match v {
            Some(x) => match x.as_str() {
                Some(s) => s,
                None => "JavaScript error",
            },
            None => "JavaScript error",
        };
        return Err(WebDriverError::JavascriptError(String::from_str(msg)));
    }
    match result.result_value() {
        Some(v) => Ok(v.deep_clone()),
        None => Ok(Json::Null),
    }
}

} // verus!
