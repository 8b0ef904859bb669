//! WebDriver errors: their W3C error codes, HTTP statuses, messages and
//! the JSON body that answers a failed command.
use crate::json::{add_entry, entries_view, new_entries, json_object, json_str, json_string, lookup, value_body, value_response, Json, JsonView};
use vstd::prelude::*;

verus! {

/// An error of the W3C WebDriver protocol.
#[derive(Debug, Clone)]
pub enum WebDriverError {
    SessionNotCreated(String),
    InvalidSessionId,
    NoSuchElement,
    NoSuchFrame,
    StaleElementReference,
    ElementNotInteractable,
    InvalidArgument(String),
    JavascriptError(String),
    Timeout,
    NoSuchWindow,
    NoSuchCookie(String),
    UnknownCommand(String),
    UnknownError(String),
    NoSuchAlert,
    ElementClickIntercepted(String),
    InsecureCertificate,
    MoveTargetOutOfBounds,
}

/// The mathematical view of a [`WebDriverError`].
pub enum ErrorView {
    SessionNotCreated(Seq<char>),
    InvalidSessionId,
    NoSuchElement,
    NoSuchFrame,
    StaleElementReference,
    ElementNotInteractable,
    InvalidArgument(Seq<char>),
    JavascriptError(Seq<char>),
    Timeout,
    NoSuchWindow,
    NoSuchCookie(Seq<char>),
    UnknownCommand(Seq<char>),
    UnknownError(Seq<char>),
    NoSuchAlert,
    ElementClickIntercepted(Seq<char>),
    InsecureCertificate,
    MoveTargetOutOfBounds,
}

impl View for WebDriverError {
    type V = ErrorView;

    open spec fn view(&self) -> ErrorView {
        match self {
            WebDriverError::SessionNotCreated(m) => ErrorView::SessionNotCreated(m@),
            WebDriverError::InvalidSessionId => ErrorView::InvalidSessionId,
            WebDriverError::NoSuchElement => ErrorView::NoSuchElement,
            WebDriverError::NoSuchFrame => ErrorView::NoSuchFrame,
            WebDriverError::StaleElementReference => ErrorView::StaleElementReference,
            WebDriverError::ElementNotInteractable => ErrorView::ElementNotInteractable,
            WebDriverError::InvalidArgument(m) => ErrorView::InvalidArgument(m@),
            WebDriverError::JavascriptError(m) => ErrorView::JavascriptError(m@),
            WebDriverError::Timeout => ErrorView::Timeout,
            WebDriverError::NoSuchWindow => ErrorView::NoSuchWindow,
            WebDriverError::NoSuchCookie(m) => ErrorView::NoSuchCookie(m@),
            WebDriverError::UnknownCommand(m) => ErrorView::UnknownCommand(m@),
            WebDriverError::UnknownError(m) => ErrorView::UnknownError(m@),
            WebDriverError::NoSuchAlert => ErrorView::NoSuchAlert,
            WebDriverError::ElementClickIntercepted(m) => ErrorView::ElementClickIntercepted(m@),
            WebDriverError::InsecureCertificate => ErrorView::InsecureCertificate,
            WebDriverError::MoveTargetOutOfBounds => ErrorView::MoveTargetOutOfBounds,
        }
    }
}

impl ErrorView {
    /// The W3C error code.
    pub open spec fn code(self) -> Seq<char> {
        match self {
            ErrorView::SessionNotCreated(_) => "session not created"@,
            ErrorView::InvalidSessionId => "invalid session id"@,
            ErrorView::NoSuchElement => "no such element"@,
            ErrorView::NoSuchFrame => "no such frame"@,
            ErrorView::StaleElementReference => "stale element reference"@,
            ErrorView::ElementNotInteractable => "element not interactable"@,
            ErrorView::InvalidArgument(_) => "invalid argument"@,
            ErrorView::JavascriptError(_) => "javascript error"@,
            ErrorView::Timeout => "timeout"@,
            ErrorView::NoSuchWindow => "no such window"@,
            ErrorView::NoSuchCookie(_) => "no such cookie"@,
            ErrorView::UnknownCommand(_) => "unknown command"@,
            ErrorView::UnknownError(_) => "unknown error"@,
            ErrorView::NoSuchAlert => "no such alert"@,
            ErrorView::ElementClickIntercepted(_) => "element click intercepted"@,
            ErrorView::InsecureCertificate => "insecure certificate"@,
            ErrorView::MoveTargetOutOfBounds => "move target out of bounds"@,
        }
    }

    /// The HTTP status that answers the error.
    pub open spec fn status(self) -> u16 {
        match self {
            ErrorView::SessionNotCreated(_) => 500,
            ErrorView::InvalidSessionId => 404,
            ErrorView::NoSuchElement => 404,
            ErrorView::NoSuchFrame => 404,
            ErrorView::StaleElementReference => 404,
            ErrorView::ElementNotInteractable => 400,
            ErrorView::InvalidArgument(_) => 400,
            ErrorView::JavascriptError(_) => 500,
            ErrorView::Timeout => 408,
            ErrorView::NoSuchWindow => 404,
            ErrorView::NoSuchCookie(_) => 404,
            ErrorView::UnknownCommand(_) => 404,
            ErrorView::UnknownError(_) => 500,
            ErrorView::NoSuchAlert => 404,
            ErrorView::ElementClickIntercepted(_) => 400,
            ErrorView::InsecureCertificate => 400,
            ErrorView::MoveTargetOutOfBounds => 400,
        }
    }

    /// The human-readable message: the carried text, or a fixed sentence.
    pub open spec fn message(self) -> Seq<char> {
        match self {
            ErrorView::SessionNotCreated(m) => m,
            ErrorView::InvalidSessionId => "Session not found"@,
            ErrorView::NoSuchElement => "Element not found"@,
            ErrorView::NoSuchFrame => "Frame not found"@,
            ErrorView::StaleElementReference => "Element is stale"@,
            ErrorView::ElementNotInteractable => "Element not interactable"@,
            ErrorView::InvalidArgument(m) => m,
            ErrorView::JavascriptError(m) => m,
            ErrorView::Timeout => "Operation timed out"@,
            ErrorView::NoSuchWindow => "Window not found"@,
            ErrorView::NoSuchCookie(m) => m,
            ErrorView::UnknownCommand(m) => m,
            ErrorView::UnknownError(m) => m,
            ErrorView::NoSuchAlert => "No alert present"@,
            ErrorView::ElementClickIntercepted(m) => m,
            ErrorView::InsecureCertificate => "Insecure certificate"@,
            ErrorView::MoveTargetOutOfBounds => "Move target out of bounds"@,
        }
    }

    /// The body of the HTTP response to the error:
    /// `{"value": {"error": code, "message": message, "stacktrace": ""}}`.
    pub open spec fn body(self) -> JsonView {
        value_body(
            JsonView::Object(
                seq![
                    ("error"@, JsonView::Str(self.code())),
                    ("message"@, JsonView::Str(self.message())),
                    ("stacktrace"@, JsonView::Str(Seq::empty())),
                ],
            ),
        )
    }
}

impl WebDriverError {
    /// The W3C error code.
    pub fn error_code(&self) -> (r: &'static str)
        ensures
            r@ == self@.code(),
    {
        match self {
            WebDriverError::SessionNotCreated(_) => "session not created",
            WebDriverError::InvalidSessionId => "invalid session id",
            WebDriverError::NoSuchElement => "no such element",
            WebDriverError::NoSuchFrame => "no such frame",
            WebDriverError::StaleElementReference => "stale element reference",
            WebDriverError::ElementNotInteractable => "element not interactable",
            WebDriverError::InvalidArgument(_) => "invalid argument",
            WebDriverError::JavascriptError(_) => "javascript error",
            WebDriverError::Timeout => "timeout",
            WebDriverError::NoSuchWindow => "no such window",
            WebDriverError::NoSuchCookie(_) => "no such cookie",
            WebDriverError::UnknownCommand(_) => "unknown command",
            WebDriverError::UnknownError(_) => "unknown error",
            WebDriverError::NoSuchAlert => "no such alert",
            WebDriverError::ElementClickIntercepted(_) => "element click intercepted",
            WebDriverError::InsecureCertificate => "insecure certificate",
            WebDriverError::MoveTargetOutOfBounds => "move target out of bounds",
        }
    }

    /// The HTTP status code that answers the error.
    pub fn http_status(&self) -> (r: u16)
        ensures
            r == self@.status(),
    {
        match self {
            WebDriverError::SessionNotCreated(_) => 500,
            WebDriverError::InvalidSessionId => 404,
            WebDriverError::NoSuchElement => 404,
            WebDriverError::NoSuchFrame => 404,
            WebDriverError::StaleElementReference => 404,
            WebDriverError::ElementNotInteractable => 400,
            WebDriverError::InvalidArgument(_) => 400,
            WebDriverError::JavascriptError(_) => 500,
            WebDriverError::Timeout => 408,
            WebDriverError::NoSuchWindow => 404,
            WebDriverError::NoSuchCookie(_) => 404,
            WebDriverError::UnknownCommand(_) => 404,
            WebDriverError::UnknownError(_) => 500,
            WebDriverError::NoSuchAlert => 404,
            WebDriverError::ElementClickIntercepted(_) => 400,
            WebDriverError::InsecureCertificate => 400,
            WebDriverError::MoveTargetOutOfBounds => 400,
        }
    }

    /// The human-readable message.
    pub fn message(&self) -> (r: String)
        ensures
            r@ == self@.message(),
    {
        match self {
            WebDriverError::SessionNotCreated(m) => m.clone(),
            WebDriverError::InvalidSessionId => String::from_str("Session not found"),
            WebDriverError::NoSuchElement => String::from_str("Element not found"),
            WebDriverError::NoSuchFrame => String::from_str("Frame not found"),
            WebDriverError::StaleElementReference => String::from_str("Element is stale"),
            WebDriverError::ElementNotInteractable => String::from_str("Element not interactable"),
            WebDriverError::InvalidArgument(m) => m.clone(),
            WebDriverError::JavascriptError(m) => m.clone(),
            WebDriverError::Timeout => String::from_str("Operation timed out"),
            WebDriverError::NoSuchWindow => String::from_str("Window not found"),
            WebDriverError::NoSuchCookie(m) => m.clone(),
            WebDriverError::UnknownCommand(m) => m.clone(),
            WebDriverError::UnknownError(m) => m.clone(),
            WebDriverError::NoSuchAlert => String::from_str("No alert present"),
            WebDriverError::ElementClickIntercepted(m) => m.clone(),
            WebDriverError::InsecureCertificate => String::from_str("Insecure certificate"),
            WebDriverError::MoveTargetOutOfBounds => String::from_str("Move target out of bounds"),
        }
    }

    /// `"<code>: <message>"`, the text the error displays as.
    pub fn display_string(&self) -> (r: String)
        ensures
            r@ == self@.code() + ": "@ + self@.message(),
    {
        let mut s = String::from_str(self.error_code());
        s.append(": ");
        let m = self.message();
        s.append(m.as_str());
        s
    }

    /// The JSON body of the HTTP response to this error.
    pub fn response_body(&self) -> (r: Json)
        ensures
            r@ == self@.body(),
    {
        proof {
            reveal_strlit("");
        }
        assert(""@ =~= Seq::<char>::empty());
        let mut inner = new_entries();
        add_entry(&mut inner, "error", json_str(self.error_code()));
        add_entry(&mut inner, "message", json_string(self.message()));
        add_entry(&mut inner, "stacktrace", json_str(""));
        assert(entries_view(inner@) =~= seq![
            ("error"@, JsonView::Str(self@.code())),
            ("message"@, JsonView::Str(self@.message())),
            ("stacktrace"@, JsonView::Str(Seq::empty())),
        ]);
        let obj = json_object(inner);
        assert(obj@->Object_0 =~= seq![
            ("error"@, JsonView::Str(self@.code())),
            ("message"@, JsonView::Str(self@.message())),
            ("stacktrace"@, JsonView::Str(Seq::empty())),
        ]);
        value_response(obj)
    }
}

/// Every error is answered with a client-error or server-error status, and
/// with a body whose `value` holds the error's code and message.
pub proof fn error_response_law(e: ErrorView)
    ensures
        400 <= e.status() < 600,
        e.body().get("value"@) matches Some(v) && v.get_str("error"@) == Some(e.code())
            && v.get_str("message"@) == Some(e.message()),
{
    let v = JsonView::Object(
        seq![
            ("error"@, JsonView::Str(e.code())),
            ("message"@, JsonView::Str(e.message())),
            ("stacktrace"@, JsonView::Str(Seq::empty())),
        ],
    );
    reveal_with_fuel(lookup, 3);
    assert(seq![("value"@, v)].drop_first().len() == 0);
    assert(e.body().get("value"@) == Some(v));
    assert(v->Object_0.drop_first()[0].0 == "message"@);
    assert("error"@ != "message"@) by {
        reveal_strlit("error");
        reveal_strlit("message");
        assert("error"@[0] != "message"@[0]);
    }
}

} // verus!
