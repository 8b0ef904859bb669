//! Which Chrome the sessions use: the server's own headless one, or an
//! external one that `connect` registered.
use crate::chrome::{local_base_url, local_base_url_view};
use crate::json::{json_str, json_string, obj1, obj2, Json, JsonView};
use vstd::prelude::*;

verus! {

/// The Chrome that new sessions use: `None` for the internal one, or the
/// DevTools address of an external one.
pub struct ChromeMode {
    external_url: Option<String>,
}

/// The answer that describes a mode.
pub open spec fn mode_body(external: Option<Seq<char>>) -> JsonView {
    match external {
        Some(url) => JsonView::Object(
            seq![("mode"@, JsonView::Str("external"@)), ("url"@, JsonView::Str(url))],
        ),
        None => JsonView::Object(seq![("mode"@, JsonView::Str("internal"@))]),
    }
}

/// The DevTools address that targets are opened at in a mode.
pub open spec fn base_url_of(external: Option<Seq<char>>, chrome_port: u16) -> Seq<char> {
    match external {
        Some(url) => url,
        None => local_base_url_view(chrome_port),
    }
}

/// The address of an external Chrome that a set request gives (empty where
/// it gives none).
pub open spec fn requested_url(body: JsonView) -> Seq<char> {
    match body.get_str("url"@) {
        Some(u) => u,
        None => Seq::empty(),
    }
}

/// The mode after a switch to the external Chrome that a request names.
pub open spec fn after_set(body: JsonView) -> Option<Seq<char>> {
    Some(requested_url(body))
}

/// The mode after a switch back to the internal Chrome.
pub open spec fn after_clear() -> Option<Seq<char>> {
    None
}

impl View for ChromeMode {
    type V = Option<Seq<char>>;

    closed spec fn view(&self) -> Option<Seq<char>> {
        match self.external_url {
            Some(u) => Some(u@),
            None => None,
        }
    }
}

impl ChromeMode {
    /// The internal Chrome.
    pub fn new() -> (r: ChromeMode)
        ensures
            r@ is None,
    {
        ChromeMode { external_url: None }
    }

    /// Switches to the external Chrome that the request names, and answers
    /// with the new mode.
    pub fn set_external(&mut self, body: &Json) -> (r: Json)
        ensures
            final(self)@ == after_set(body@),
            r@ == mode_body(final(self)@),
    {
        let url = match body.get_str("url") {
            Some(u) => String::from_str(u),
            None => String::new(),
        };
        let answer = obj2("mode", json_str("external"), "url", json_string(url.clone()));
        self.external_url = Some(url);
        answer
    }

    /// Switches back to the internal Chrome, and answers with the new mode.
    pub fn clear(&mut self) -> (r: Json)
        ensures
            final(self)@ == after_clear(),
            r@ == mode_body(final(self)@),
    {
        self.external_url = None;
        obj1("mode", json_str("internal"))
    }

    /// The answer to a get-mode request.
    pub fn mode_response(&self) -> (r: Json)
        ensures
            r@ == mode_body(self@),
    {
        match &self.external_url {
            Some(u) => obj2("mode", json_str("external"), "url", json_string(u.clone())),
            None => obj1("mode", json_str("internal")),
        }
    }

    /// The DevTools address at which new sessions open their targets.
    pub fn target_base_url(&self, chrome_port: u16) -> (r: String)
        ensures
            r@ == base_url_of(self@, chrome_port),
    {
        match &self.external_url {
            Some(u) => u.clone(),
            None => local_base_url(chrome_port),
        }
    }
}

/// After a switch to an external Chrome, the mode reports it with the
/// address the request gave, and sessions open their targets there; after a
/// switch back, the mode reports the internal Chrome and sessions open their
/// targets on the local one.
pub proof fn mode_switch_law(body: JsonView, chrome_port: u16)
    ensures
        mode_body(after_set(body)).get_str("mode"@) == Some("external"@),
        mode_body(after_set(body)).get_str("url"@) == Some(requested_url(body)),
        base_url_of(after_set(body), chrome_port) == requested_url(body),
        mode_body(after_clear()).get_str("mode"@) == Some("internal"@),
        mode_body(after_clear()).get("url"@) is None,
        base_url_of(after_clear(), chrome_port) == local_base_url_view(chrome_port),
{
    reveal_strlit("mode");
    reveal_strlit("url");
    assert("mode"@ != "url"@) by {
        assert("mode"@.len() != "url"@.len());
    }
    reveal_with_fuel(crate::json::lookup, 3);
}

} // verus!
