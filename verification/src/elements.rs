//! Finding elements: locator parsing, the JavaScript that each locator
//! strategy runs, and the interpretation of what the page answers.
use crate::cdp::{command, CdpCommand, CommandView};
use crate::error::{ErrorView, WebDriverError};
use crate::input::ELEMENT_KEY;
use crate::json::{
    add_item, json_array, json_str, json_string, new_items, obj1, obj2, value_body, value_response,
    views, Json, JsonView,
};
use crate::text::{
    cat2, cat3, cat5, contains, decimal, decimal_string, has_substring, json_quote, json_quoted, occurs_at,
    trim_end, trim_end_char,
};
use vstd::prelude::*;

verus! {

/// The locator of a find request: its `using` strategy and its `value`.
pub open spec fn locator(body: JsonView) -> Result<(Seq<char>, Seq<char>), ErrorView> {
    match body.get_str("using"@) {
        None => Err(ErrorView::InvalidArgument("Missing 'using' parameter"@)),
        Some(using) => match body.get_str("value"@) {
            None => Err(ErrorView::InvalidArgument("Missing 'value' parameter"@)),
            Some(value) => Ok((using, value)),
        },
    }
}

/// Reads the locator of a find request.
pub fn parse_locator(body: &Json) -> (r: Result<(String, String), WebDriverError>)
    ensures
        match locator(body@) {
            Ok((u, v)) => r matches Ok((ru, rv)) && ru@ == u && rv@ == v,
            Err(e) => r matches Err(re) && re@ == e,
        },
{
    let using = match body.get_str("using") {
        Some(u) => String::from_str(u),
        None => {
            return Err(WebDriverError::InvalidArgument(String::from_str("Missing 'using' parameter")));
        },
    };
    let value = match body.get_str("value") {
        Some(v) => String::from_str(v),
        None => {
            return Err(WebDriverError::InvalidArgument(String::from_str("Missing 'value' parameter")));
        },
    };
    Ok((using, value))
}

/// The expression that finds by CSS selector (`e` is the quoted selector).
pub open spec fn css_js(e: Seq<char>, multiple: bool) -> Seq<char> {
    if multiple {
        "document.querySelectorAll("@ + e + ")"@
    } else {
        "(() => { const el = document.querySelector("@ + e
            + "); if (!el) throw new Error('no such element'); return el; })()"@
    }
}

/// The expression that finds by XPath.
pub open spec fn xpath_js(e: Seq<char>, multiple: bool) -> Seq<char> {
    if multiple {
        "(() => { const r = "@ + ("document.evaluate("@ + e
            + ", document, null, XPathResult.ORDERED_NODE_SNAPSHOT_TYPE, null)"@) + "; const a = []; "@
            + "for (let i = 0; i < r.snapshotLength; i++) a.push(r.snapshotItem(i)); return a;"@
            + " })()"@
    } else {
        "(() => { const r = document.evaluate("@ + e
            + ", document, null, XPathResult.FIRST_ORDERED_NODE_TYPE, null); if (!r.singleNodeValue) throw new Error('no such element'); return r.singleNodeValue; })()"@
    }
}

/// The expression that finds links by their whole text.
pub open spec fn link_text_js(e: Seq<char>, multiple: bool) -> Seq<char> {
    if multiple {
        "Array.from(document.querySelectorAll('a')).filter(a => a.textContent.trim() === "@ + e
            + ")"@
    } else {
        "(() => { const el = Array.from(document.querySelectorAll('a')).find(a => a.textContent.trim() === "@
            + e + "); if (!el) throw new Error('no such element'); return el; })()"@
    }
}

/// The expression that finds links by part of their text.
pub open spec fn partial_link_text_js(e: Seq<char>, multiple: bool) -> Seq<char> {
    if multiple {
        "Array.from(document.querySelectorAll('a')).filter(a => a.textContent.includes("@ + e
            + "))"@
    } else {
        "(() => { const el = Array.from(document.querySelectorAll('a')).find(a => a.textContent.includes("@
            + e + ")); if (!el) throw new Error('no such element'); return el; })()"@
    }
}

/// The expression that finds by tag name.
pub open spec fn tag_name_js(e: Seq<char>, multiple: bool) -> Seq<char> {
    if multiple {
        "document.getElementsByTagName("@ + e + ")"@
    } else {
        "(() => { const el = document.getElementsByTagName("@ + e
            + ")[0]; if (!el) throw new Error('no such element'); return el; })()"@
    }
}

/// The expression that finds the element (or, with `multiple`, the
/// collection of elements) that a locator names in the document.
pub open spec fn find_js(using: Seq<char>, value: Seq<char>, multiple: bool) -> Seq<char> {
    let e = json_quoted(value);
    if using == "css selector"@ {
        css_js(e, multiple)
    } else if using == "xpath"@ {
        xpath_js(e, multiple)
    } else if using == "link text"@ {
        link_text_js(e, multiple)
    } else if using == "partial link text"@ {
        partial_link_text_js(e, multiple)
    } else if using == "tag name"@ {
        tag_name_js(e, multiple)
    } else {
        "(() => { throw new Error('Unsupported locator: "@ + using + "'); })()"@
    }
}

pub fn build_css_find_js(escaped: &str, multiple: bool) -> (r: String)
    ensures
        r@ == css_js(escaped@, multiple),
{
    if multiple {
        cat3("document.querySelectorAll(", escaped, ")")
    } else {
        cat3(
            "(() => { const el = document.querySelector(",
            escaped,
            "); if (!el) throw new Error('no such element'); return el; })()",
        )
    }
}

pub fn build_xpath_find_js(escaped: &str, multiple: bool) -> (r: String)
    ensures
        r@ == xpath_js(escaped@, multiple),
{
    if multiple {
        let query = cat3(
            "document.evaluate(",
            escaped,
            ", document, null, XPathResult.ORDERED_NODE_SNAPSHOT_TYPE, null)",
        );
        let mut s = String::from_str("(() => { const r = ");
        s.append(query.as_str());
        s.append("; const a = []; ");
        s.append("for (let i = 0; i < r.snapshotLength; i++) a.push(r.snapshotItem(i)); return a;");
        s.append(" })()");
        s
    } else {
        cat3(
            "(() => { const r = document.evaluate(",
            escaped,
            ", document, null, XPathResult.FIRST_ORDERED_NODE_TYPE, null); if (!r.singleNodeValue) throw new Error('no such element'); return r.singleNodeValue; })()",
        )
    }
}

pub fn build_link_text_find_js(escaped: &str, multiple: bool) -> (r: String)
    ensures
        r@ == link_text_js(escaped@, multiple),
{
    if multiple {
        cat3(
            "Array.from(document.querySelectorAll('a')).filter(a => a.textContent.trim() === ",
            escaped,
            ")",
        )
    } else {
        cat3(
            "(() => { const el = Array.from(document.querySelectorAll('a')).find(a => a.textContent.trim() === ",
            escaped,
            "); if (!el) throw new Error('no such element'); return el; })()",
        )
    }
}

pub fn build_partial_link_text_find_js(escaped: &str, multiple: bool) -> (r: String)
    ensures
        r@ == partial_link_text_js(escaped@, multiple),
{
    if multiple {
        cat3(
            "Array.from(document.querySelectorAll('a')).filter(a => a.textContent.includes(",
            escaped,
            "))",
        )
    } else {
        cat3(
            "(() => { const el = Array.from(document.querySelectorAll('a')).find(a => a.textContent.includes(",
            escaped,
            ")); if (!el) throw new Error('no such element'); return el; })()",
        )
    }
}

pub fn build_tag_name_find_js(escaped: &str, multiple: bool) -> (r: String)
    ensures
        r@ == tag_name_js(escaped@, multiple),
{
    if multiple {
        cat3("document.getElementsByTagName(", escaped, ")")
    } else {
        cat3(
            "(() => { const el = document.getElementsByTagName(",
            escaped,
            ")[0]; if (!el) throw new Error('no such element'); return el; })()",
        )
    }
}

fn is(a: &str, b: &str) -> (r: bool)
    ensures
        r == (a@ == b@),
{
    String::from_str(a) == String::from_str(b)
}

/// The expression that finds what a locator names in the document.
pub fn build_find_js(using: &str, value: &str, multiple: bool) -> (r: String)
    ensures
        r@ == find_js(using@, value@, multiple),
{
    let escaped = json_quote(value);
    let e = escaped.as_str();
    if is(using, "css selector") {
        build_css_find_js(e, multiple)
    } else if is(using, "xpath") {
        build_xpath_find_js(e, multiple)
    } else if is(using, "link text") {
        build_link_text_find_js(e, multiple)
    } else if is(using, "partial link text") {
        build_partial_link_text_find_js(e, multiple)
    } else if is(using, "tag name") {
        build_tag_name_find_js(e, multiple)
    } else {
        cat3("(() => { throw new Error('Unsupported locator: ", using, "'); })()")
    }
}

proof fn lemma_occurs_in_middle(a: Seq<char>, b: Seq<char>, c: Seq<char>)
    ensures
        has_substring(a + b + c, b),
{
    assert((a + b + c).subrange(a.len() as int, (a.len() + b.len()) as int) =~= b);
    assert(occurs_at(a + b + c, b, a.len() as int));
}

/// Finding all elements by XPath evaluates the quoted XPath as an ordered
/// snapshot of the document and collects every node of the snapshot, from
/// index 0 up to its length, in order.
pub proof fn xpath_find_collects_every_match(value: Seq<char>)
    ensures
        has_substring(
            find_js("xpath"@, value, true),
            "document.evaluate("@ + json_quoted(value)
                + ", document, null, XPathResult.ORDERED_NODE_SNAPSHOT_TYPE, null)"@,
        ),
        has_substring(
            find_js("xpath"@, value, true),
            "for (let i = 0; i < r.snapshotLength; i++) a.push(r.snapshotItem(i)); return a;"@,
        ),
{
    reveal_strlit("xpath");
    reveal_strlit("css selector");
    assert("xpath"@ != "css selector"@) by {
        assert("xpath"@.len() != "css selector"@.len());
    }
    let e = json_quoted(value);
    let query = "document.evaluate("@ + e
        + ", document, null, XPathResult.ORDERED_NODE_SNAPSHOT_TYPE, null)"@;
    let head = "(() => { const r = "@;
    let mid = "; const a = []; "@;
    let lp = "for (let i = 0; i < r.snapshotLength; i++) a.push(r.snapshotItem(i)); return a;"@;
    let tail = " })()"@;
    let whole = head + query + mid + lp + tail;
    assert(find_js("xpath"@, value, true) == whole);
    assert(whole =~= head + query + (mid + lp + tail));
    lemma_occurs_in_middle(head, query, mid + lp + tail);
    assert(whole =~= (head + query + mid) + lp + tail);
    lemma_occurs_in_middle(head + query + mid, lp, tail);
}

/// The function, called on an element, that finds the first descendant a
/// locator names.
pub open spec fn child_find_js(using: Seq<char>, value: Seq<char>) -> Seq<char> {
    let e = json_quoted(value);
    if using == "css selector"@ {
        "function() { const el = this.querySelector("@ + e
            + "); if (!el) throw new Error('no such element'); return el; }"@
    } else if using == "xpath"@ {
        "function() { const r = document.evaluate("@ + e
            + ", this, null, XPathResult.FIRST_ORDERED_NODE_TYPE, null); if (!r.singleNodeValue) throw new Error('no such element'); return r.singleNodeValue; }"@
    } else if using == "tag name"@ {
        "function() { const el = this.getElementsByTagName("@ + e
            + ")[0]; if (!el) throw new Error('no such element'); return el; }"@
    } else {
        "function() { throw new Error('Unsupported locator: "@ + using + "'); }"@
    }
}

/// The function that finds the first descendant a locator names.
pub fn build_child_find_js(using: &str, value: &str) -> (r: String)
    ensures
        r@ == child_find_js(using@, value@),
{
    let escaped = json_quote(value);
    let e = escaped.as_str();
    if is(using, "css selector") {
        cat3(
            "function() { const el = this.querySelector(",
            e,
            "); if (!el) throw new Error('no such element'); return el; }",
        )
    } else if is(using, "xpath") {
        cat3(
            "function() { const r = document.evaluate(",
            e,
            ", this, null, XPathResult.FIRST_ORDERED_NODE_TYPE, null); if (!r.singleNodeValue) throw new Error('no such element'); return r.singleNodeValue; }",
        )
    } else if is(using, "tag name") {
        cat3(
            "function() { const el = this.getElementsByTagName(",
            e,
            ")[0]; if (!el) throw new Error('no such element'); return el; }",
        )
    } else {
        cat3("function() { throw new Error('Unsupported locator: ", using, "'); }")
    }
}

/// The function, called on an element, that counts the descendants a
/// locator names.
pub open spec fn child_count_js(using: Seq<char>, value: Seq<char>) -> Seq<char> {
    let e = json_quoted(value);
    if using == "css selector"@ {
        "function() { return this.querySelectorAll("@ + e + ").length; }"@
    } else if using == "xpath"@ {
        "function() { const r = document.evaluate("@ + e
            + ", this, null, XPathResult.ORDERED_NODE_SNAPSHOT_TYPE, null); return r.snapshotLength; }"@
    } else if using == "tag name"@ {
        "function() { return this.getElementsByTagName("@ + e + ").length; }"@
    } else {
        "function() { return 0; }"@
    }
}

/// The function that counts the descendants a locator names.
pub fn build_child_count_js(using: &str, value: &str) -> (r: String)
    ensures
        r@ == child_count_js(using@, value@),
{
    let escaped = json_quote(value);
    let e = escaped.as_str();
    if is(using, "css selector") {
        cat3("function() { return this.querySelectorAll(", e, ").length; }")
    } else if is(using, "xpath") {
        cat3(
            "function() { const r = document.evaluate(",
            e,
            ", this, null, XPathResult.ORDERED_NODE_SNAPSHOT_TYPE, null); return r.snapshotLength; }",
        )
    } else if is(using, "tag name") {
        cat3("function() { return this.getElementsByTagName(", e, ").length; }")
    } else {
        String::from_str("function() { return 0; }")
    }
}

/// The function, called on an element, that gives its `index`-th descendant
/// that a locator names.
pub open spec fn child_nth_js(using: Seq<char>, value: Seq<char>, index: u64) -> Seq<char> {
    let e = json_quoted(value);
    let i = decimal(index as nat);
    if using == "css selector"@ {
        "function() { return this.querySelectorAll("@ + e + ")["@ + i + "]; }"@
    } else if using == "xpath"@ {
        "function() { const r = document.evaluate("@ + e
            + ", this, null, XPathResult.ORDERED_NODE_SNAPSHOT_TYPE, null); return r.snapshotItem("@
            + i + "); }"@
    } else if using == "tag name"@ {
        "function() { return this.getElementsByTagName("@ + e + ")["@ + i + "]; }"@
    } else {
        "function() { return null; }"@
    }
}

/// The function that gives the `index`-th descendant a locator names.
pub fn build_child_nth_js(using: &str, value: &str, index: u64) -> (r: String)
    ensures
        r@ == child_nth_js(using@, value@, index),
{
    let escaped = json_quote(value);
    let e = escaped.as_str();
    let idx = decimal_string(index);
    let i = idx.as_str();
    if is(using, "css selector") {
        cat5("function() { return this.querySelectorAll(", e, ")[", i, "]; }")
    } else if is(using, "xpath") {
        cat5(
            "function() { const r = document.evaluate(",
            e,
            ", this, null, XPathResult.ORDERED_NODE_SNAPSHOT_TYPE, null); return r.snapshotItem(",
            i,
            "); }",
        )
    } else if is(using, "tag name") {
        cat5("function() { return this.getElementsByTagName(", e, ")[", i, "]; }")
    } else {
        String::from_str("function() { return null; }")
    }
}

/// The expression that counts the elements of a collection expression
/// (without its trailing semicolons).
pub open spec fn count_expression(collection_js: Seq<char>) -> Seq<char> {
    "("@ + trim_end(collection_js, ';') + ").length"@
}

pub fn collection_count_expression(collection_js: &str) -> (r: String)
    ensures
        r@ == count_expression(collection_js@),
{
    let base = trim_end_char(collection_js, ';');
    cat3("(", base.as_str(), ").length")
}

/// The expression that gives the `index`-th element of a collection expression.
pub open spec fn indexed_expression(collection_js: Seq<char>, index: u64) -> Seq<char> {
    "("@ + trim_end(collection_js, ';') + ")["@ + decimal(index as nat) + "]"@
}

pub fn indexed_element_expression(collection_js: &str, index: u64) -> (r: String)
    ensures
        r@ == indexed_expression(collection_js@, index),
{
    let base = trim_end_char(collection_js, ';');
    let i = decimal_string(index);
    cat5("(", base.as_str(), ")[", i.as_str(), "]")
}

/// `Runtime.evaluate` of `expression`, by value or by reference.
pub open spec fn evaluate_view(expression: Seq<char>, return_by_value: bool) -> CommandView {
    CommandView {
        method: "Runtime.evaluate"@,
        params: JsonView::Object(
            seq![
                ("expression"@, JsonView::Str(expression)),
                ("returnByValue"@, JsonView::Bool(return_by_value)),
            ],
        ),
    }
}

pub fn evaluate_command(expression: &str, return_by_value: bool) -> (r: CdpCommand)
    ensures
        r@ == evaluate_view(expression@, return_by_value),
{
    command(
        "Runtime.evaluate",
        obj2("expression", json_str(expression), "returnByValue", Json::Bool(return_by_value)),
    )
}

/// The description of a JavaScript exception: `exception.description`
/// where present, else `text`, when that is a string.
pub open spec fn exception_text(ex: JsonView) -> Option<Seq<char>> {
    let d = match ex.get("exception"@) {
        Some(e) => e.get("description"@),
        None => None,
    };
    let v = match d {
        Some(x) => Some(x),
        None => ex.get("text"@),
    };
    match v {
        Some(x) => x.as_str(),
        None => None,
    }
}

/// The element id that an evaluation returned, or the error it stands for:
/// an exception mentioning "no such element" (or no object at all) means
/// that no element was found, any other exception is a JavaScript error.
pub open spec fn object_id_of(result: JsonView) -> Result<Seq<char>, ErrorView> {
    match result.get("exceptionDetails"@) {
        Some(ex) => {
            let text = match exception_text(ex) {
                Some(t) => t,
                None => "Unknown error"@,
            };
            if has_substring(text, "no such element"@) {
                Err(ErrorView::NoSuchElement)
            } else {
                Err(ErrorView::JavascriptError(text))
            }
        },
        None => match result.get("result"@) {
            Some(r) => match r.get_str("objectId"@) {
                Some(id) => Ok(id),
                None => Err(ErrorView::NoSuchElement),
            },
            None => Err(ErrorView::NoSuchElement),
        },
    }
}

pub open spec fn string_result_view(r: Result<String, WebDriverError>) -> Result<Seq<char>, ErrorView> {
    match r {
        Ok(s) => Ok(s@),
        Err(e) => Err(e@),
    }
}

/// The element id that an evaluation returned.
pub fn extract_object_id(result: &Json) -> (r: Result<String, WebDriverError>)
    ensures
        string_result_view(r) == object_id_of(result@),
{
    if let Some(exception) = result.get("exceptionDetails") {
        let d = match exception.get("exception") {
            Some(e) => e.get("description"),
            None => None,
        };
        let v = match d {
            Some(x) => Some(x),
            None => exception.get("text"),
        };
        let text = match v {
            Some(x) => match x.as_str() {
                Some(t) => t,
                None => "Unknown error",
            },
            None => "Unknown error",
        };
        if contains(text, "no such element") {
            return Err(WebDriverError::NoSuchElement);
        }
        return Err(WebDriverError::JavascriptError(String::from_str(text)));
    }
    match result.get("result") {
        Some(r) => match r.get_str("objectId") {
            Some(id) => Ok(String::from_str(id)),
            None => Err(WebDriverError::NoSuchElement),
        },
        None => Err(WebDriverError::NoSuchElement),
    }
}

/// `{ELEMENT_KEY: id}`: a WebDriver element reference.
pub open spec fn reference_view(id: Seq<char>) -> JsonView {
    JsonView::Object(seq![(ELEMENT_KEY@, JsonView::Str(id))])
}

pub fn element_reference(object_id: String) -> (r: Json)
    ensures
        r@ == reference_view(object_id@),
{
    obj1(ELEMENT_KEY, json_string(object_id))
}

/// `{"value": {ELEMENT_KEY: id}}`: the answer to a successful single find.
pub fn element_response(object_id: String) -> (r: Json)
    ensures
        r@ == value_body(reference_view(object_id@)),
{
    value_response(element_reference(object_id))
}

/// The reference of the element an evaluation returned, if it returned one.
pub fn optional_reference(result: &Json) -> (r: Option<Json>)
    ensures
        match object_id_of(result@) {
            Ok(id) => r matches Some(x) && x@ == reference_view(id),
            Err(_) => r is None,
        },
{
    match extract_object_id(result) {
        Ok(oid) => Some(element_reference(oid)),
        Err(_) => None,
    }
}

/// `{"value": [refs...]}`.
pub fn elements_response(refs: Vec<Json>) -> (r: Json)
    ensures
        r@ == value_body(JsonView::Array(views(refs@))),
{
    value_response(json_array(refs))
}

/// What to do after one attempt of a single find.
pub enum FindStep {
    /// Answer with this element.
    Found(String),
    /// Wait and try again.
    Retry,
    /// Answer with this error.
    Failed(WebDriverError),
}

/// The next step of a single find: the element when one was found; another
/// attempt when none was found and the implicit wait has not run out; the
/// error otherwise.
pub fn find_step(result: &Json, before_deadline: bool) -> (r: FindStep)
    ensures
        match object_id_of(result@) {
            Ok(id) => r matches FindStep::Found(s) && s@ == id,
            Err(ErrorView::NoSuchElement) => if before_deadline {
                r is Retry
            } else {
                r matches FindStep::Failed(e) && e@ == ErrorView::NoSuchElement
            },
            Err(e) => r matches FindStep::Failed(re) && re@ == e,
        },
{
    match extract_object_id(result) {
        Ok(oid) => FindStep::Found(oid),
        Err(WebDriverError::NoSuchElement) => {
            if before_deadline {
                FindStep::Retry
            } else {
                FindStep::Failed(WebDriverError::NoSuchElement)
            }
        },
        Err(e) => FindStep::Failed(e),
    }
}

/// What to do after one count of a multiple find.
pub enum ElementsStep {
    /// Fetch this many elements.
    Collect(u64),
    /// Answer with no elements.
    Empty,
    /// Wait and count again.
    Retry,
}

/// The next step of a multiple find: fetch the elements when there are some;
/// answer with none when the implicit wait has run out; count again otherwise.
pub fn elements_step(count: u64, deadline_passed: bool) -> (r: ElementsStep)
    ensures
        count > 0 ==> r == ElementsStep::Collect(count),
        count == 0 && deadline_passed ==> r is Empty,
        count == 0 && !deadline_passed ==> r is Retry,
{
    if count > 0 {
        ElementsStep::Collect(count)
    } else if deadline_passed {
        ElementsStep::Empty
    } else {
        ElementsStep::Retry
    }
}

/// The number an evaluation returned, or 0.
pub open spec fn count_of(result: JsonView) -> u64 {
    match result.result_value() {
        Some(v) => match v.as_u64() {
            Some(n) => n,
            None => 0,
        },
        None => 0,
    }
}

pub fn extract_count(result: &Json) -> (r: u64)
    ensures
        r == count_of(result@),
{
    match result.result_value() {
        Some(v) => match v.as_u64() {
            Some(n) => n,
            None => 0,
        },
        None => 0,
    }
}

/// The expression that gives the focused element.
pub const ACTIVE_ELEMENT_JS: &'static str = "document.activeElement";

// ------------------------------------------------- functions run on an element

/// Gives the element's rendered text.
pub const TEXT_JS: &'static str = "function() { return this.innerText || this.textContent || ''; }";

/// Gives the element's tag name in lower case.
pub const TAG_NAME_JS: &'static str = "function() { return this.tagName.toLowerCase(); }";

/// Gives the element's attribute `name`.
pub const ATTRIBUTE_JS: &'static str = "function(name) { return this.getAttribute(name); }";

/// Gives the element's property `name`.
pub const PROPERTY_JS: &'static str = "function(name) { return this[name]; }";

/// Gives the computed value of the element's CSS property `prop`.
pub const CSS_VALUE_JS: &'static str =
    "function(prop) { return window.getComputedStyle(this).getPropertyValue(prop); }";

/// Gives the element's bounding rectangle.
pub const RECT_JS: &'static str =
    "function() { const r = this.getBoundingClientRect(); return {x: r.x, y: r.y, width: r.width, height: r.height}; }";

/// Tells whether the element is enabled.
pub const ENABLED_JS: &'static str = "function() { return !this.disabled; }";

/// Tells whether the element (an option, a check box or a radio button) is selected.
pub const SELECTED_JS: &'static str =
    "function() { if (this.tagName === 'OPTION') return this.selected; return this.checked || false; }";

/// Tells whether the element is displayed.
pub const DISPLAYED_JS: &'static str =
    "function() { const s = window.getComputedStyle(this); if (s.display === 'none' || s.visibility === 'hidden' || s.opacity === '0') return false; const r = this.getBoundingClientRect(); return r.width > 0 && r.height > 0; }";

/// Scrolls the element into the middle of the viewport and gives its centre.
pub const SCROLL_TO_CENTER_JS: &'static str =
    "function() { this.scrollIntoView({block: 'center', inline: 'center'}); const r = this.getBoundingClientRect(); return {x: r.x + r.width / 2, y: r.y + r.height / 2}; }";

/// Scrolls the element into view and gives its bounding rectangle.
pub const SCROLL_TO_RECT_JS: &'static str =
    "function() { this.scrollIntoView({block: 'center'}); const r = this.getBoundingClientRect(); return {x: r.x, y: r.y, width: r.width, height: r.height}; }";

/// Gives the element the focus.
pub const FOCUS_JS: &'static str = "function() { this.focus(); }";

/// Empties an input, a text area or an editable element, and announces the change.
pub const CLEAR_JS: &'static str =
    "function() { this.focus(); if (this.tagName === 'INPUT' || this.tagName === 'TEXTAREA') { this.value = ''; } else if (this.isContentEditable) { this.textContent = ''; } this.dispatchEvent(new Event('input', {bubbles: true})); this.dispatchEvent(new Event('change', {bubbles: true})); }";

/// The centre of an element that an evaluation returned; an element without
/// one cannot be clicked.
pub fn center_value(result: &Json) -> (r: Result<Json, WebDriverError>)
    ensures
        match result@.result_value() {
            Some(v) => r matches Ok(j) && j@ == v,
            None => r matches Err(e) && e@ == ErrorView::ElementNotInteractable,
        },
{
    match result.result_value() {
        Some(v) => Ok(v.deep_clone()),
        None => Err(WebDriverError::ElementNotInteractable),
    }
}

} // verus!
