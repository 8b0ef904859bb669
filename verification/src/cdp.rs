//! The decisions of the CDP connection: how a command is framed, how an
//! incoming message is routed, and how the fate of a command becomes a
//! WebDriver result.
use crate::error::{ErrorView, WebDriverError};
use crate::json::{
    add_entry, entries_view, json_i64, json_object, json_str, new_entries, int_number, Json,
    JsonView,
};
use crate::text::{contains, has_substring};
use vstd::prelude::*;

verus! {

/// A CDP command: a method name and its parameters.
pub struct CdpCommand {
    pub method: String,
    pub params: Json,
}

/// The mathematical view of a [`CdpCommand`].
pub struct CommandView {
    pub method: Seq<char>,
    pub params: JsonView,
}

impl View for CdpCommand {
    type V = CommandView;

    open spec fn view(&self) -> CommandView {
        CommandView { method: self.method@, params: self.params@ }
    }
}

/// Builds a command.
pub fn command(method: &str, params: Json) -> (r: CdpCommand)
    ensures
        r@ == (CommandView { method: method@, params: params@ }),
{
    CdpCommand { method: String::from_str(method), params }
}

/// The views of a sequence of commands.
pub open spec fn command_views(s: Seq<CdpCommand>) -> Seq<CommandView> {
    Seq::new(s.len(), |i: int| s[i]@)
}

/// The WebDriver error that a CDP error message stands for.
pub open spec fn translated(msg: Seq<char>) -> ErrorView {
    if has_substring(msg, "Cannot find context"@) || has_substring(
        msg,
        "Execution context was destroyed"@,
    ) {
        ErrorView::NoSuchFrame
    } else if has_substring(msg, "Could not find object with given id"@) {
        ErrorView::StaleElementReference
    } else {
        ErrorView::UnknownError(msg)
    }
}

/// Translates the error message of a failed CDP command.
pub fn translate_cdp_error(cdp_error: String) -> (r: WebDriverError)
    ensures
        r@ == translated(cdp_error@),
{
    if contains(cdp_error.as_str(), "Cannot find context") || contains(
        cdp_error.as_str(),
        "Execution context was destroyed",
    ) {
        WebDriverError::NoSuchFrame
    } else if contains(cdp_error.as_str(), "Could not find object with given id") {
        WebDriverError::StaleElementReference
    } else {
        WebDriverError::UnknownError(cdp_error)
    }
}

/// The message that carries command `id`: `{"id": id, "method": method, "params": params}`.
pub open spec fn request_view(id: i64, method: Seq<char>, params: JsonView) -> JsonView {
    JsonView::Object(
        seq![
            ("id"@, JsonView::Number(int_number(id))),
            ("method"@, JsonView::Str(method)),
            ("params"@, params),
        ],
    )
}

/// Frames command `id` for the wire.
pub fn request_message(id: i64, cmd: CdpCommand) -> (r: Json)
    ensures
        r@ == request_view(id, cmd@.method, cmd@.params),
{
    let ghost cv = cmd@;
    let mut e = new_entries();
    add_entry(&mut e, "id", json_i64(id));
    add_entry(&mut e, "method", Json::Str(cmd.method));
    add_entry(&mut e, "params", cmd.params);
    assert(entries_view(e@) =~= seq![
        ("id"@, JsonView::Number(int_number(id))),
        ("method"@, JsonView::Str(cv.method)),
        ("params"@, cv.params),
    ]);
    json_object(e)
}

/// What an incoming message is.
pub enum Incoming {
    /// The answer to command `id`: its result, or the message of its error.
    Reply { id: i64, outcome: Result<Json, String> },
    /// An event, to be handed to the subscribers.
    Event,
    /// Anything else.
    Ignored,
}

/// The outcome that a reply carries: the message of its `error` (or
/// `"CDP error"`), else its `result` (or `{}`).
pub open spec fn reply_outcome(v: JsonView) -> Result<JsonView, Seq<char>> {
    match v.get("error"@) {
        Some(err) => Err(
            match err.get_str("message"@) {
                Some(m) => m,
                None => "CDP error"@,
            },
        ),
        None => Ok(
            match v.get("result"@) {
                Some(r) => r,
                None => JsonView::Object(Seq::empty()),
            },
        ),
    }
}

/// A command is framed with its id, and the reply that carries that id back
/// is routed to the command with the result it holds; a reply with an error
/// is routed to it with the error's message.
pub proof fn reply_routing_law(id: i64, method: Seq<char>, params: JsonView, result: JsonView, message: Seq<char>)
    ensures
        request_view(id, method, params).get_i64("id"@) == Some(id),
        ({
            let reply = JsonView::Object(
                seq![("id"@, JsonView::Number(int_number(id))), ("result"@, result)],
            );
            &&& reply.get_i64("id"@) == Some(id)
            &&& reply_outcome(reply) == Ok::<JsonView, Seq<char>>(result)
        }),
        ({
            let reply = JsonView::Object(
                seq![
                    ("id"@, JsonView::Number(int_number(id))),
                    ("error"@, JsonView::Object(seq![("message"@, JsonView::Str(message))])),
                ],
            );
            &&& reply.get_i64("id"@) == Some(id)
            &&& reply_outcome(reply) == Err::<JsonView, Seq<char>>(message)
        }),
{
    reveal_with_fuel(crate::json::lookup, 3);
    reveal_strlit("id");
    reveal_strlit("result");
    reveal_strlit("error");
    assert("id"@ != "result"@) by {
        assert("id"@.len() != "result"@.len());
    }
    assert("id"@ != "error"@) by {
        assert("id"@.len() != "error"@.len());
    }
    assert("result"@ != "error"@) by {
        assert("result"@.len() != "error"@.len());
    }
}

pub open spec fn outcome_view(o: Result<Json, String>) -> Result<JsonView, Seq<char>> {
    match o {
        Ok(j) => Ok(j@),
        Err(m) => Err(m@),
    }
}

/// Routes an incoming message: one with an integer `id` is a reply, else
/// one with a `method` is an event, else it is ignored.
pub fn classify_incoming(v: &Json) -> (r: Incoming)
    ensures
        match v@.get_i64("id"@) {
            Some(id) => r matches Incoming::Reply { id: rid, outcome } && rid == id && outcome_view(
                outcome,
            ) == reply_outcome(v@),
            None => if v@.get("method"@) is Some {
                r is Event
            } else {
                r is Ignored
            },
        },
{
    match v.get_i64("id") {
        Some(id) => {
            let outcome = match v.get("error") {
                Some(err) => {
                    let m = match err.get_str("message") {
                        Some(m) => String::from_str(m),
                        None => String::from_str("CDP error"),
                    };
                    Err(m)
                },
                None => {
                    match v.get("result") {
                        Some(res) => Ok(res.deep_clone()),
                        None => {
                            let e = new_entries();
                            Ok(json_object(e))
                        },
                    }
                },
            };
            Incoming::Reply { id, outcome }
        },
        None => {
            if v.get("method").is_some() {
                Incoming::Event
            } else {
                Incoming::Ignored
            }
        },
    }
}

/// What became of a command that was sent.
pub enum ReplyStatus {
    /// The reply arrived.
    Answered(Result<Json, String>),
    /// The command could not be written to the connection.
    SendFailed,
    /// The connection dropped the reply channel.
    Dropped,
    /// No reply came in time.
    TimedOut,
}

/// The WebDriver result of a command, from what became of it.
pub fn command_result(status: ReplyStatus) -> (r: Result<Json, WebDriverError>)
    ensures
        match status {
            ReplyStatus::Answered(Ok(j)) => r matches Ok(x) && x@ == j@,
            ReplyStatus::Answered(Err(m)) => r matches Err(e) && e@ == translated(m@),
            ReplyStatus::SendFailed => r matches Err(e) && e@ == ErrorView::UnknownError(
                "CDP connection closed"@,
            ),
            ReplyStatus::Dropped => r matches Err(e) && e@ == ErrorView::UnknownError(
                "Response channel dropped"@,
            ),
            ReplyStatus::TimedOut => r matches Err(e) && e@ == ErrorView::Timeout,
        },
{
    match status {
        ReplyStatus::Answered(Ok(j)) => Ok(j),
        ReplyStatus::Answered(Err(m)) => Err(translate_cdp_error(m)),
        ReplyStatus::SendFailed => Err(
            WebDriverError::UnknownError(String::from_str("CDP connection closed")),
        ),
        ReplyStatus::Dropped => Err(
            WebDriverError::UnknownError(String::from_str("Response channel dropped")),
        ),
        ReplyStatus::TimedOut => Err(WebDriverError::Timeout),
    }
}

} // verus!
