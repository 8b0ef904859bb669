//! Cookies: CDP cookies as WebDriver cookies, and WebDriver cookies as the
//! parameters of `Network.setCookie`.
use crate::cdp::{command, CdpCommand, CommandView};
use crate::error::{ErrorView, WebDriverError};
use crate::json::{
    add_entry, add_item, entries_view, json_array, json_object, json_str, json_string,
    new_entries, new_items, obj2, value_body, value_response, views, Json, JsonNumber, JsonView,
};
use crate::text::cat3;
use vstd::prelude::*;

verus! {

pub open spec fn str_or(v: Option<Seq<char>>, d: Seq<char>) -> Seq<char> {
    match v {
        Some(s) => s,
        None => d,
    }
}

pub open spec fn bool_or(v: Option<bool>, d: bool) -> bool {
    match v {
        Some(b) => b,
        None => d,
    }
}

/// The number under `key`, if that entry is a number.
pub open spec fn number_at(v: JsonView, key: Seq<char>) -> Option<JsonNumber> {
    match v.get(key) {
        Some(JsonView::Number(n)) => Some(n),
        _ => None,
    }
}

/// A CDP cookie as a WebDriver cookie. Missing entries take their defaults:
/// empty name, value and domain, path `/`, not secure, not HTTP-only,
/// same-site `None`, and a `null` expiry. (The expiry is carried as the
/// number CDP gave; the server writes it as a float.)
pub open spec fn webdriver_cookie(c: JsonView) -> JsonView {
    JsonView::Object(
        seq![
            ("name"@, JsonView::Str(str_or(c.get_str("name"@), Seq::empty()))),
            ("value"@, JsonView::Str(str_or(c.get_str("value"@), Seq::empty()))),
            ("domain"@, JsonView::Str(str_or(c.get_str("domain"@), Seq::empty()))),
            ("path"@, JsonView::Str(str_or(c.get_str("path"@), "/"@))),
            ("secure"@, JsonView::Bool(bool_or(c.get_bool("secure"@), false))),
            ("httpOnly"@, JsonView::Bool(bool_or(c.get_bool("httpOnly"@), false))),
            ("sameSite"@, JsonView::Str(str_or(c.get_str("sameSite"@), "None"@))),
            ("expiry"@, match number_at(c, "expires"@) {
                Some(n) => JsonView::Number(n),
                None => JsonView::Null,
            }),
        ],
    )
}

fn str_field_or(v: &Json, key: &str, d: &str) -> (r: Json)
    ensures
        r@ == JsonView::Str(str_or(v@.get_str(key@), d@)),
{
    match v.get_str(key) {
        Some(s) => json_str(s),
        None => json_str(d),
    }
}

fn bool_field_or(v: &Json, key: &str, d: bool) -> (r: Json)
    ensures
        r@ == JsonView::Bool(bool_or(v@.get_bool(key@), d)),
{
    match v.get_bool(key) {
        Some(b) => Json::Bool(b),
        None => Json::Bool(d),
    }
}

fn number_field(v: &Json, key: &str) -> (r: Option<JsonNumber>)
    ensures
        r == number_at(v@, key@),
{
    match v.get(key) {
        Some(Json::Number(n)) => Some(*n),
        _ => None,
    }
}

/// A CDP cookie as a WebDriver cookie.
pub fn cdp_cookie_to_webdriver(cookie: &Json) -> (r: Json)
    ensures
        r@ == webdriver_cookie(cookie@),
{
    proof {
        reveal_strlit("");
    }
    assert(""@ =~= Seq::<char>::empty());
    let name = str_field_or(cookie, "name", "");
    let value = str_field_or(cookie, "value", "");
    let domain = str_field_or(cookie, "domain", "");
    let path = str_field_or(cookie, "path", "/");
    let secure = bool_field_or(cookie, "secure", false);
    let http_only = bool_field_or(cookie, "httpOnly", false);
    let same_site = str_field_or(cookie, "sameSite", "None");
    let expiry = match number_field(cookie, "expires") {
        Some(n) => Json::Number(n),
        None => Json::Null,
    };
    let ghost vs = seq![name@, value@, domain@, path@, secure@, http_only@, same_site@, expiry@];
    let mut e = new_entries();
    add_entry(&mut e, "name", name);
    add_entry(&mut e, "value", value);
    add_entry(&mut e, "domain", domain);
    add_entry(&mut e, "path", path);
    add_entry(&mut e, "secure", secure);
    add_entry(&mut e, "httpOnly", http_only);
    add_entry(&mut e, "sameSite", same_site);
    add_entry(&mut e, "expiry", expiry);
    assert(entries_view(e@) =~= webdriver_cookie(cookie@)->Object_0);
    json_object(e)
}

proof fn lemma_cookie_keys_distinct()
    ensures
        "name"@ != "value"@,
        "name"@ != "domain"@,
        "name"@ != "path"@,
        "name"@ != "secure"@,
        "name"@ != "httpOnly"@,
        "name"@ != "sameSite"@,
        "name"@ != "expiry"@,
        "value"@ != "domain"@,
        "value"@ != "path"@,
        "value"@ != "secure"@,
        "value"@ != "httpOnly"@,
        "value"@ != "sameSite"@,
        "value"@ != "expiry"@,
        "domain"@ != "path"@,
        "domain"@ != "secure"@,
        "domain"@ != "httpOnly"@,
        "domain"@ != "sameSite"@,
        "domain"@ != "expiry"@,
        "path"@ != "secure"@,
        "path"@ != "httpOnly"@,
        "path"@ != "sameSite"@,
        "path"@ != "expiry"@,
        "secure"@ != "httpOnly"@,
        "secure"@ != "sameSite"@,
        "secure"@ != "expiry"@,
        "httpOnly"@ != "sameSite"@,
        "httpOnly"@ != "expiry"@,
        "sameSite"@ != "expiry"@,
{
    reveal_strlit("name");
    reveal_strlit("value");
    reveal_strlit("domain");
    reveal_strlit("path");
    reveal_strlit("secure");
    reveal_strlit("httpOnly");
    reveal_strlit("sameSite");
    reveal_strlit("expiry");
    assert("name"@[0] != "path"@[0]);
    assert("domain"@[0] != "secure"@[0]);
    assert("domain"@[0] != "expiry"@[0]);
    assert("secure"@[0] != "expiry"@[0]);
    assert("httpOnly"@[0] != "sameSite"@[0]);
    assert("secure"@.len() != "sameSite"@.len());
}

/// Each field of a reported cookie is the same-named field of the CDP
/// cookie (its `expires` for the expiry), or its default where the CDP cookie
/// lacks it: empty name, value and domain, path `/`, not secure, not
/// HTTP-only, same-site `None`, no expiry.
pub proof fn reported_cookie_fields_law(c: JsonView)
    ensures
        ({
            let w = webdriver_cookie(c);
            &&& (c.get_str("name"@) matches Some(s) ==> w.get_str("name"@) == Some(s))
            &&& (c.get_str("name"@) is None ==> w.get_str("name"@) == Some(Seq::<char>::empty()))
            &&& (c.get_str("value"@) matches Some(s) ==> w.get_str("value"@) == Some(s))
            &&& (c.get_str("value"@) is None ==> w.get_str("value"@) == Some(Seq::<char>::empty()))
            &&& (c.get_str("domain"@) matches Some(s) ==> w.get_str("domain"@) == Some(s))
            &&& (c.get_str("domain"@) is None ==> w.get_str("domain"@) == Some(Seq::<char>::empty()))
            &&& (c.get_str("path"@) matches Some(s) ==> w.get_str("path"@) == Some(s))
            &&& (c.get_str("path"@) is None ==> w.get_str("path"@) == Some("/"@))
            &&& (c.get_bool("secure"@) matches Some(b) ==> w.get_bool("secure"@) == Some(b))
            &&& (c.get_bool("secure"@) is None ==> w.get_bool("secure"@) == Some(false))
            &&& (c.get_bool("httpOnly"@) matches Some(b) ==> w.get_bool("httpOnly"@) == Some(b))
            &&& (c.get_bool("httpOnly"@) is None ==> w.get_bool("httpOnly"@) == Some(false))
            &&& (c.get_str("sameSite"@) matches Some(s) ==> w.get_str("sameSite"@) == Some(s))
            &&& (c.get_str("sameSite"@) is None ==> w.get_str("sameSite"@) == Some("None"@))
            &&& (c.get("expires"@) matches Some(JsonView::Number(n)) ==> w.get("expiry"@) == Some(
                JsonView::Number(n),
            ))
            &&& (!(c.get("expires"@) matches Some(JsonView::Number(_))) ==> w.get("expiry"@) == Some(
                JsonView::Null,
            ))
        }),
{
    lemma_cookie_keys_distinct();
    reveal_with_fuel(crate::json::lookup, 9);
}

/// The WebDriver cookies of a `Network.getCookies` result, in order (none
/// where it has no `cookies` array).
pub open spec fn webdriver_cookies(result: JsonView) -> Seq<JsonView> {
    match result.get_array("cookies"@) {
        Some(cs) => Seq::new(cs.len(), |i: int| webdriver_cookie(cs[i])),
        None => Seq::empty(),
    }
}

/// The answer to a get-all-cookies request.
pub fn all_cookies_response(result: &Json) -> (r: Json)
    ensures
        r@ == value_body(JsonView::Array(webdriver_cookies(result@))),
{
    let mut items = new_items();
    if let Some(cs) = result.get_array("cookies") {
        let ghost cv = views(cs@);
        let mut i: usize = 0;
        while i < cs.len()
            invariant
                i <= cs.len(),
                cv == views(cs@),
                views(items@) == Seq::new(i as nat, |k: int| webdriver_cookie(cv[k])),
            decreases cs.len() - i,
        {
            add_item(&mut items, cdp_cookie_to_webdriver(&cs[i]));
            assert(views(items@) =~= Seq::new((i + 1) as nat, |k: int| webdriver_cookie(cv[k])));
            i = i + 1;
        }
        assert(views(items@) =~= webdriver_cookies(result@));
    } else {
        assert(views(items@) =~= webdriver_cookies(result@));
    }
    value_response(json_array(items))
}

/// The index of the first cookie named `name`.
pub open spec fn cookie_named(cs: Seq<JsonView>, name: Seq<char>) -> Option<int>
    decreases cs.len(),
{
    if cs.len() == 0 {
        None
    } else if cs[0].get_str("name"@) == Some(name) {
        Some(0)
    } else {
        match cookie_named(cs.drop_first(), name) {
            Some(i) => Some(i + 1),
            None => None,
        }
    }
}

/// The answer to a get-named-cookie request: the first cookie of that name,
/// or an error naming it.
pub open spec fn named_cookie(result: JsonView, name: Seq<char>) -> Result<JsonView, ErrorView> {
    match result.get_array("cookies"@) {
        Some(cs) => match cookie_named(cs, name) {
            Some(i) => Ok(value_body(webdriver_cookie(cs[i]))),
            None => Err(ErrorView::NoSuchCookie("Cookie '"@ + name + "' not found"@)),
        },
        None => Err(ErrorView::NoSuchCookie("Cookie '"@ + name + "' not found"@)),
    }
}

proof fn lemma_cookie_named(cs: Seq<JsonView>, name: Seq<char>, i: int)
    requires
        0 <= i <= cs.len(),
        forall|k: int| 0 <= k < i ==> cs[k].get_str("name"@) != Some(name),
    ensures
        i < cs.len() && cs[i].get_str("name"@) == Some(name) ==> cookie_named(cs, name) == Some(i),
        i == cs.len() ==> cookie_named(cs, name) is None,
    decreases i,
{
    if i > 0 {
        lemma_cookie_named(cs.drop_first(), name, i - 1);
    }
}

pub fn named_cookie_response(result: &Json, name: &str) -> (r: Result<Json, WebDriverError>)
    ensures
        match (r, named_cookie(result@, name@)) {
            (Ok(j), Ok(v)) => j@ == v,
            (Err(e), Err(v)) => e@ == v,
            _ => false,
        },
{
    let wanted = String::from_str(name);
    if let Some(cs) = result.get_array("cookies") {
        let ghost cv = views(cs@);
        let mut i: usize = 0;
        while i < cs.len()
            invariant
                i <= cs.len(),
                cv == views(cs@),
                result@.get_array("cookies"@) == Some(cv),
                wanted@ == name@,
                forall|k: int| 0 <= k < i ==> cv[k].get_str("name"@) != Some(name@),
            decreases cs.len() - i,
        {
            let hit = match cs[i].get_str("name") {
                Some(n) => String::from_str(n) == wanted,
                None => false,
            };
            assert(cv[i as int] == cs@[i as int]@);
            if hit {
                proof {
                    assert(cv[i as int] == cs@[i as int]@);
                    lemma_cookie_named(cv, name@, i as int);
                }
                return Ok(value_response(cdp_cookie_to_webdriver(&cs[i])));
            }
            i = i + 1;
        }
        proof {
            lemma_cookie_named(cv, name@, i as int);
        }
    }
    Err(WebDriverError::NoSuchCookie(cat3("Cookie '", name, "' not found")))
}

/// The cookie of an add-cookie request, which it must have.
pub fn cookie_from_body(body: &Json) -> (r: Result<&Json, WebDriverError>)
    ensures
        match body@.get("cookie"@) {
            Some(c) => r matches Ok(j) && j@ == c,
            None => r matches Err(e) && e@ == ErrorView::InvalidArgument(
                "Missing 'cookie' parameter"@,
            ),
        },
{
    match body.get("cookie") {
        Some(c) => Ok(c),
        None => Err(WebDriverError::InvalidArgument(String::from_str("Missing 'cookie' parameter"))),
    }
}

/// An entry `(key, v)` where `v` is given, none otherwise.
pub open spec fn optional_entry(key: Seq<char>, v: Option<JsonView>) -> Seq<(Seq<char>, JsonView)> {
    match v {
        Some(x) => seq![(key, x)],
        None => Seq::empty(),
    }
}

pub open spec fn opt_str(v: Option<Seq<char>>) -> Option<JsonView> {
    match v {
        Some(s) => Some(JsonView::Str(s)),
        None => None,
    }
}

pub open spec fn opt_bool(v: Option<bool>) -> Option<JsonView> {
    match v {
        Some(b) => Some(JsonView::Bool(b)),
        None => None,
    }
}

pub open spec fn opt_number(v: Option<JsonNumber>) -> Option<JsonView> {
    match v {
        Some(n) => Some(JsonView::Number(n)),
        None => None,
    }
}

/// The `Network.setCookie` parameters of a WebDriver cookie: its name and
/// value, which it must have as strings, then those of its domain, path,
/// secure and HTTP-only flags, expiry (as `expires`; the server writes it as
/// a float) and same-site policy that it gives.
pub open spec fn set_cookie_params(c: JsonView) -> Result<JsonView, ErrorView> {
    match c.get_str("name"@) {
        None => Err(ErrorView::InvalidArgument("Missing cookie name"@)),
        Some(name) => match c.get_str("value"@) {
            None => Err(ErrorView::InvalidArgument("Missing cookie value"@)),
            Some(value) => Ok(
                JsonView::Object(
                    seq![("name"@, JsonView::Str(name)), ("value"@, JsonView::Str(value))]
                        + optional_entry("domain"@, opt_str(c.get_str("domain"@)))
                        + optional_entry("path"@, opt_str(c.get_str("path"@)))
                        + optional_entry("secure"@, opt_bool(c.get_bool("secure"@)))
                        + optional_entry("httpOnly"@, opt_bool(c.get_bool("httpOnly"@)))
                        + optional_entry("expires"@, opt_number(number_at(c, "expiry"@)))
                        + optional_entry("sameSite"@, opt_str(c.get_str("sameSite"@))),
                ),
            ),
        },
    }
}

fn opt_str_field(v: &Json, key: &str) -> (r: Option<Json>)
    ensures
        (match r {
            Some(x) => Some(x@),
            None => None,
        }) == opt_str(v@.get_str(key@)),
{
    match v.get_str(key) {
        Some(s) => Some(json_str(s)),
        None => None,
    }
}

fn opt_bool_field(v: &Json, key: &str) -> (r: Option<Json>)
    ensures
        (match r {
            Some(x) => Some(x@),
            None => None,
        }) == opt_bool(v@.get_bool(key@)),
{
    match v.get_bool(key) {
        Some(b) => Some(Json::Bool(b)),
        None => None,
    }
}

fn add_optional(e: &mut Vec<(String, Json)>, key: &str, v: Option<Json>)
    ensures
        entries_view(final(e)@) == entries_view(old(e)@) + optional_entry(
            key@,
            match v {
                Some(x) => Some(x@),
                None => None,
            },
        ),
{
    match v {
        Some(x) => {
            add_entry(e, key, x);
        },
        None => {
            assert(entries_view(e@) + Seq::<(Seq<char>, JsonView)>::empty() =~= entries_view(e@));
        },
    }
}

pub fn build_set_cookie_params(cookie: &Json) -> (r: Result<Json, WebDriverError>)
    ensures
        match (r, set_cookie_params(cookie@)) {
            (Ok(j), Ok(v)) => j@ == v,
            (Err(e), Err(v)) => e@ == v,
            _ => false,
        },
{
    let name = match cookie.get_str("name") {
        Some(n) => n,
        None => {
            return Err(WebDriverError::InvalidArgument(String::from_str("Missing cookie name")));
        },
    };
    let value = match cookie.get_str("value") {
        Some(v) => v,
        None => {
            return Err(WebDriverError::InvalidArgument(String::from_str("Missing cookie value")));
        },
    };
    let domain = opt_str_field(cookie, "domain");
    let path = opt_str_field(cookie, "path");
    let secure = opt_bool_field(cookie, "secure");
    let http_only = opt_bool_field(cookie, "httpOnly");
    let expires = match number_field(cookie, "expiry") {
        Some(n) => Some(Json::Number(n)),
        None => None,
    };
    let same_site = opt_str_field(cookie, "sameSite");
    let mut e = new_entries();
    add_entry(&mut e, "name", json_str(name));
    add_entry(&mut e, "value", json_str(value));
    add_optional(&mut e, "domain", domain);
    add_optional(&mut e, "path", path);
    add_optional(&mut e, "secure", secure);
    add_optional(&mut e, "httpOnly", http_only);
    add_optional(&mut e, "expires", expires);
    add_optional(&mut e, "sameSite", same_site);
    let r = json_object(e);
    assert(r@->Object_0 =~= set_cookie_params(cookie@)->Ok_0->Object_0);
    Ok(r)
}

/// Whether the cookie parameters still lack a domain.
pub fn needs_domain(params: &Json) -> (r: bool)
    ensures
        r == (params@.get("domain"@) is None),
{
    params.get("domain").is_none()
}

/// Sets `key` of the cookie parameters to the string that an evaluation of
/// the page's location returned, where it returned one.
pub fn fill_from_location(params: &mut Json, key: &str, result: &Json)
    ensures
        final(params)@ == match result@.result_value() {
            Some(v) => match v.as_str() {
                Some(s) => old(params)@.with(key@, JsonView::Str(s)),
                None => old(params)@,
            },
            None => old(params)@,
        },
{
    match result.result_value() {
        Some(v) => match v.as_str() {
            Some(s) => params.set(key, json_str(s)),
            None => {},
        },
        None => {},
    }
}

/// The command that deletes the cookies named `name` for the address that
/// an evaluation of the page's location returned (the empty address where it
/// returned none).
pub fn delete_cookies_command(name: &str, href_result: &Json) -> (r: CdpCommand)
    ensures
        r@ == (CommandView {
            method: "Network.deleteCookies"@,
            params: JsonView::Object(
                seq![
                    ("name"@, JsonView::Str(name@)),
                    ("url"@, JsonView::Str(crate::page::string_result(href_result@))),
                ],
            ),
        }),
{
    let url = crate::page::extract_string_result(href_result);
    command("Network.deleteCookies", obj2("name", json_str(name), "url", json_string(url)))
}

} // verus!
