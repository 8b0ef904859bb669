//! Keyboard and pointer input: the WebDriver special keys, the text that a
//! "send keys" request types, and the plan of a W3C actions request as CDP
//! input commands.
use crate::cdp::{command, command_views, CdpCommand, CommandView};
use crate::error::{ErrorView, WebDriverError};
use crate::json::{
    json_i64, json_str, json_string, json_u64, obj2, obj3, obj4, obj5, views, Json, JsonNumber,
    JsonView,
};
use vstd::prelude::*;
use vstd::string::*;

verus! {

/// The key under which a WebDriver element reference carries its id.
pub const ELEMENT_KEY: &'static str = "element-6066-11e4-a52e-4f735466cecf";

/// A key of the WebDriver special-key range: its DOM key, its DOM code and
/// its Windows virtual key code.
pub struct SpecialKey {
    pub key: &'static str,
    pub code: &'static str,
    pub key_code: u32,
}

pub struct KeyView {
    pub key: Seq<char>,
    pub code: Seq<char>,
    pub key_code: u32,
}

impl View for SpecialKey {
    type V = KeyView;

    open spec fn view(&self) -> KeyView {
        KeyView { key: self.key@, code: self.code@, key_code: self.key_code }
    }
}

pub open spec fn kv(key: Seq<char>, code: Seq<char>, key_code: u32) -> Option<KeyView> {
    Some(KeyView { key, code, key_code })
}

/// The editing and navigation keys, U+E003 to U+E017.
pub open spec fn navigation_key(c: char) -> Option<KeyView> {
    let u = c as u32;
    if u == 0xE003 {
        kv("Backspace"@, "Backspace"@, 8)
    } else if u == 0xE004 {
        kv("Tab"@, "Tab"@, 9)
    } else if u == 0xE006 || u == 0xE007 {
        kv("Enter"@, "Enter"@, 13)
    } else if u == 0xE008 {
        kv("Shift"@, "ShiftLeft"@, 16)
    } else if u == 0xE009 {
        kv("Control"@, "ControlLeft"@, 17)
    } else if u == 0xE00A {
        kv("Alt"@, "AltLeft"@, 18)
    } else if u == 0xE00C {
        kv("Escape"@, "Escape"@, 27)
    } else if u == 0xE00D {
        kv(" "@, "Space"@, 32)
    } else if u == 0xE00E {
        kv("PageUp"@, "PageUp"@, 33)
    } else if u == 0xE00F {
        kv("PageDown"@, "PageDown"@, 34)
    } else if u == 0xE010 {
        kv("End"@, "End"@, 35)
    } else if u == 0xE011 {
        kv("Home"@, "Home"@, 36)
    } else if u == 0xE012 {
        kv("ArrowLeft"@, "ArrowLeft"@, 37)
    } else if u == 0xE013 {
        kv("ArrowUp"@, "ArrowUp"@, 38)
    } else if u == 0xE014 {
        kv("ArrowRight"@, "ArrowRight"@, 39)
    } else if u == 0xE015 {
        kv("ArrowDown"@, "ArrowDown"@, 40)
    } else if u == 0xE016 {
        kv("Insert"@, "Insert"@, 45)
    } else if u == 0xE017 {
        kv("Delete"@, "Delete"@, 46)
    } else {
        None
    }
}

/// The function keys F1 to F12, U+E031 to U+E03C.
pub open spec fn function_key(c: char) -> Option<KeyView> {
    let u = c as u32;
    if 0xE031 <= u <= 0xE03C {
        let n = (u - 0xE031) as int;
        if n == 0 {
            kv("F1"@, "F1"@, 112)
        } else if n == 1 {
            kv("F2"@, "F2"@, 113)
        } else if n == 2 {
            kv("F3"@, "F3"@, 114)
        } else if n == 3 {
            kv("F4"@, "F4"@, 115)
        } else if n == 4 {
            kv("F5"@, "F5"@, 116)
        } else if n == 5 {
            kv("F6"@, "F6"@, 117)
        } else if n == 6 {
            kv("F7"@, "F7"@, 118)
        } else if n == 7 {
            kv("F8"@, "F8"@, 119)
        } else if n == 8 {
            kv("F9"@, "F9"@, 120)
        } else if n == 9 {
            kv("F10"@, "F10"@, 121)
        } else if n == 10 {
            kv("F11"@, "F11"@, 122)
        } else {
            kv("F12"@, "F12"@, 123)
        }
    } else {
        None
    }
}

/// The special key that a character of the WebDriver key range stands for.
pub open spec fn special_key_view(c: char) -> Option<KeyView> {
    match navigation_key(c) {
        Some(k) => Some(k),
        None => function_key(c),
    }
}

pub open spec fn key_opt_view(k: Option<SpecialKey>) -> Option<KeyView> {
    match k {
        Some(k) => Some(k@),
        None => None,
    }
}

fn sk(key: &'static str, code: &'static str, key_code: u32) -> (r: SpecialKey)
    ensures
        r@ == (KeyView { key: key@, code: code@, key_code }),
{
    SpecialKey { key, code, key_code }
}

/// The editing or navigation key of `ch`.
pub fn special_key_navigation(ch: char) -> (r: Option<SpecialKey>)
    ensures
        key_opt_view(r) == navigation_key(ch),
{
    match ch as u32 {
        0xE003 => Some(sk("Backspace", "Backspace", 8)),
        0xE004 => Some(sk("Tab", "Tab", 9)),
        0xE006 | 0xE007 => Some(sk("Enter", "Enter", 13)),
        0xE008 => Some(sk("Shift", "ShiftLeft", 16)),
        0xE009 => Some(sk("Control", "ControlLeft", 17)),
        0xE00A => Some(sk("Alt", "AltLeft", 18)),
        0xE00C => Some(sk("Escape", "Escape", 27)),
        0xE00D => Some(sk(" ", "Space", 32)),
        0xE00E => Some(sk("PageUp", "PageUp", 33)),
        0xE00F => Some(sk("PageDown", "PageDown", 34)),
        0xE010 => Some(sk("End", "End", 35)),
        0xE011 => Some(sk("Home", "Home", 36)),
        0xE012 => Some(sk("ArrowLeft", "ArrowLeft", 37)),
        0xE013 => Some(sk("ArrowUp", "ArrowUp", 38)),
        0xE014 => Some(sk("ArrowRight", "ArrowRight", 39)),
        0xE015 => Some(sk("ArrowDown", "ArrowDown", 40)),
        0xE016 => Some(sk("Insert", "Insert", 45)),
        0xE017 => Some(sk("Delete", "Delete", 46)),
        _ => None,
    }
}

/// The function key of `ch`.
pub fn special_key_function(ch: char) -> (r: Option<SpecialKey>)
    ensures
        key_opt_view(r) == function_key(ch),
{
    match ch as u32 {
        0xE031 => Some(sk("F1", "F1", 112)),
        0xE032 => Some(sk("F2", "F2", 113)),
        0xE033 => Some(sk("F3", "F3", 114)),
        0xE034 => Some(sk("F4", "F4", 115)),
        0xE035 => Some(sk("F5", "F5", 116)),
        0xE036 => Some(sk("F6", "F6", 117)),
        0xE037 => Some(sk("F7", "F7", 118)),
        0xE038 => Some(sk("F8", "F8", 119)),
        0xE039 => Some(sk("F9", "F9", 120)),
        0xE03A => Some(sk("F10", "F10", 121)),
        0xE03B => Some(sk("F11", "F11", 122)),
        0xE03C => Some(sk("F12", "F12", 123)),
        _ => None,
    }
}

/// The special key of `ch`, if it is one.
pub fn special_key(ch: char) -> (r: Option<SpecialKey>)
    ensures
        key_opt_view(r) == special_key_view(ch),
{
    match special_key_navigation(ch) {
        Some(k) => Some(k),
        None => special_key_function(ch),
    }
}

/// The DOM key name of a key value in an actions request: the name of the
/// special key that its first character stands for, or the value itself.
pub open spec fn normalized_key(v: Seq<char>) -> Seq<char> {
    if v.len() > 0 {
        let u = v[0] as u32;
        if u == 0xE003 {
            "Backspace"@
        } else if u == 0xE004 {
            "Tab"@
        } else if u == 0xE006 || u == 0xE007 {
            "Enter"@
        } else if u == 0xE008 {
            "Shift"@
        } else if u == 0xE009 {
            "Control"@
        } else if u == 0xE00A {
            "Alt"@
        } else if u == 0xE00C {
            "Escape"@
        } else if u == 0xE00D {
            " "@
        } else if u == 0xE012 {
            "ArrowLeft"@
        } else if u == 0xE013 {
            "ArrowUp"@
        } else if u == 0xE014 {
            "ArrowRight"@
        } else if u == 0xE015 {
            "ArrowDown"@
        } else {
            v
        }
    } else {
        v
    }
}

/// The DOM key name of a key value in an actions request.
pub fn normalize_key(key_value: &str) -> (r: String)
    ensures
        r@ == normalized_key(key_value@),
{
    if key_value.unicode_len() > 0 {
        let ch = key_value.get_char(0);
        match ch as u32 {
            0xE003 => String::from_str("Backspace"),
            0xE004 => String::from_str("Tab"),
            0xE006 | 0xE007 => String::from_str("Enter"),
            0xE008 => String::from_str("Shift"),
            0xE009 => String::from_str("Control"),
            0xE00A => String::from_str("Alt"),
            0xE00C => String::from_str("Escape"),
            0xE00D => String::from_str(" "),
            0xE012 => String::from_str("ArrowLeft"),
            0xE013 => String::from_str("ArrowUp"),
            0xE014 => String::from_str("ArrowRight"),
            0xE015 => String::from_str("ArrowDown"),
            _ => String::from_str(key_value),
        }
    } else {
        String::from_str(key_value)
    }
}

/// A key that an actions request names by a special character gets the same
/// DOM key name as the one that "send keys" types for that character.
pub proof fn normalized_key_agrees_with_special_key(c: char)
    requires
        normalized_key(seq![c]) != seq![c],
    ensures
        special_key_view(c) matches Some(k) && k.key == normalized_key(seq![c]),
{
}

/// The special keys that a key action may name by their character: the
/// editing, modifier, space and arrow keys.
pub open spec fn named_in_actions(c: char) -> bool {
    let u = c as u32;
    u == 0xE003 || u == 0xE004 || (0xE006 <= u <= 0xE00A) || u == 0xE00C || u == 0xE00D || (
    0xE012 <= u <= 0xE015)
}

/// A key action whose value starts with one of these special characters
/// presses the same DOM key that typing that character presses; any other
/// value is passed on as it is.
pub proof fn action_keys_agree_with_typed_keys(v: Seq<char>)
    ensures
        v.len() > 0 && named_in_actions(v[0]) ==> (special_key_view(v[0]) matches Some(k)
            && normalized_key(v) == k.key),
        !(v.len() > 0 && named_in_actions(v[0])) ==> normalized_key(v) == v,
{
}

pub open spec fn key_entry(key: Seq<char>, code: Seq<char>, key_code: u32) -> Option<KeyView> {
    Some(KeyView { key, code, key_code })
}

/// The WebDriver special-key table: which characters are special keys, and
/// the W3C key, code and Windows key code of each.
pub proof fn special_key_table_law(c: char)
    ensures
        special_key_view(c) is Some <==> ({
            let u = c as u32;
            (0xE003 <= u <= 0xE004) || (0xE006 <= u <= 0xE00A) || (0xE00C <= u <= 0xE017) || (
            0xE031 <= u <= 0xE03C)
        }),
        c as u32 == 0xE003 ==> special_key_view(c) == key_entry("Backspace"@, "Backspace"@, 8),
        c as u32 == 0xE004 ==> special_key_view(c) == key_entry("Tab"@, "Tab"@, 9),
        c as u32 == 0xE006 ==> special_key_view(c) == key_entry("Enter"@, "Enter"@, 13),
        c as u32 == 0xE007 ==> special_key_view(c) == key_entry("Enter"@, "Enter"@, 13),
        c as u32 == 0xE008 ==> special_key_view(c) == key_entry("Shift"@, "ShiftLeft"@, 16),
        c as u32 == 0xE009 ==> special_key_view(c) == key_entry("Control"@, "ControlLeft"@, 17),
        c as u32 == 0xE00A ==> special_key_view(c) == key_entry("Alt"@, "AltLeft"@, 18),
        c as u32 == 0xE00C ==> special_key_view(c) == key_entry("Escape"@, "Escape"@, 27),
        c as u32 == 0xE00D ==> special_key_view(c) == key_entry(" "@, "Space"@, 32),
        c as u32 == 0xE00E ==> special_key_view(c) == key_entry("PageUp"@, "PageUp"@, 33),
        c as u32 == 0xE00F ==> special_key_view(c) == key_entry("PageDown"@, "PageDown"@, 34),
        c as u32 == 0xE010 ==> special_key_view(c) == key_entry("End"@, "End"@, 35),
        c as u32 == 0xE011 ==> special_key_view(c) == key_entry("Home"@, "Home"@, 36),
        c as u32 == 0xE012 ==> special_key_view(c) == key_entry("ArrowLeft"@, "ArrowLeft"@, 37),
        c as u32 == 0xE013 ==> special_key_view(c) == key_entry("ArrowUp"@, "ArrowUp"@, 38),
        c as u32 == 0xE014 ==> special_key_view(c) == key_entry("ArrowRight"@, "ArrowRight"@, 39),
        c as u32 == 0xE015 ==> special_key_view(c) == key_entry("ArrowDown"@, "ArrowDown"@, 40),
        c as u32 == 0xE016 ==> special_key_view(c) == key_entry("Insert"@, "Insert"@, 45),
        c as u32 == 0xE017 ==> special_key_view(c) == key_entry("Delete"@, "Delete"@, 46),
        c as u32 == 0xE031 ==> special_key_view(c) == key_entry("F1"@, "F1"@, 112),
        c as u32 == 0xE032 ==> special_key_view(c) == key_entry("F2"@, "F2"@, 113),
        c as u32 == 0xE033 ==> special_key_view(c) == key_entry("F3"@, "F3"@, 114),
        c as u32 == 0xE034 ==> special_key_view(c) == key_entry("F4"@, "F4"@, 115),
        c as u32 == 0xE035 ==> special_key_view(c) == key_entry("F5"@, "F5"@, 116),
        c as u32 == 0xE036 ==> special_key_view(c) == key_entry("F6"@, "F6"@, 117),
        c as u32 == 0xE037 ==> special_key_view(c) == key_entry("F7"@, "F7"@, 118),
        c as u32 == 0xE038 ==> special_key_view(c) == key_entry("F8"@, "F8"@, 119),
        c as u32 == 0xE039 ==> special_key_view(c) == key_entry("F9"@, "F9"@, 120),
        c as u32 == 0xE03A ==> special_key_view(c) == key_entry("F10"@, "F10"@, 121),
        c as u32 == 0xE03B ==> special_key_view(c) == key_entry("F11"@, "F11"@, 122),
        c as u32 == 0xE03C ==> special_key_view(c) == key_entry("F12"@, "F12"@, 123),
        0xE00E <= c as u32 <= 0xE015 ==> (special_key_view(c) matches Some(k) && k.key_code
            == c as u32 - 0xE00E + 33),
        0xE031 <= c as u32 <= 0xE03C ==> (special_key_view(c) matches Some(k) && k.key_code
            == c as u32 - 0xE031 + 112 && k.key == k.code),
{
}

/// Along the table, a later character has a larger key code: distinct
/// special keys have distinct key codes, the two Enter characters aside.
pub proof fn special_key_codes_increase(c1: char, c2: char)
    requires
        (c1 as u32) < (c2 as u32),
        special_key_view(c1) is Some,
        special_key_view(c2) is Some,
        !(c1 as u32 == 0xE006 && c2 as u32 == 0xE007),
    ensures
        special_key_view(c1).unwrap().key_code < special_key_view(c2).unwrap().key_code,
{
}

/// The name of a pointer button: 1 is the middle one, 2 the right one, any
/// other number the left one.
pub open spec fn button_name(button: i64) -> Seq<char> {
    if button == 1 {
        "middle"@
    } else if button == 2 {
        "right"@
    } else {
        "left"@
    }
}

/// The name of a pointer button.
pub fn pointer_button_name(button: i64) -> (r: &'static str)
    ensures
        r@ == button_name(button),
{
    match button {
        1 => "middle",
        2 => "right",
        _ => "left",
    }
}

// ---------------------------------------------------------------- send keys

/// The concatenation of the strings among `items`, in order.
pub open spec fn joined_strs(items: Seq<JsonView>) -> Seq<char>
    decreases items.len(),
{
    if items.len() == 0 {
        Seq::empty()
    } else {
        joined_strs(items.drop_last()) + match items.last().as_str() {
            Some(s) => s,
            None => Seq::empty(),
        }
    }
}

/// The text of a "send keys" request: its `text`, else the strings of its
/// `value` array joined, else nothing.
pub open spec fn keys_text(body: JsonView) -> Seq<char> {
    match body.get_str("text"@) {
        Some(s) => s,
        None => match body.get_array("value"@) {
            Some(items) => joined_strs(items),
            None => Seq::empty(),
        },
    }
}

/// The text of a "send keys" request.
pub fn extract_keys_text(body: &Json) -> (r: String)
    ensures
        r@ == keys_text(body@),
{
    if let Some(s) = body.get_str("text") {
        return String::from_str(s);
    }
    if let Some(arr) = body.get_array("value") {
        let mut out = String::new();
        let mut i: usize = 0;
        while i < arr.len()
            invariant
                i <= arr.len(),
                out@ == joined_strs(views(arr@).subrange(0, i as int)),
            decreases arr.len() - i,
        {
            proof {
                let s = views(arr@).subrange(0, i + 1);
                assert(s.drop_last() =~= views(arr@).subrange(0, i as int));
                assert(s.last() == arr@[i as int]@);
            }
            if let Some(s) = arr[i].as_str() {
                out.append(s);
            } else {
                assert(out@ + Seq::<char>::empty() =~= out@);
            }
            i = i + 1;
        }
        assert(views(arr@).subrange(0, arr.len() as int) =~= views(arr@));
        return out;
    }
    String::new()
}

/// `Input.dispatchKeyEvent` with `params`.
pub open spec fn key_event(params: JsonView) -> CommandView {
    CommandView { method: "Input.dispatchKeyEvent"@, params }
}

/// `Input.dispatchMouseEvent` with `params`.
pub open spec fn mouse_event(params: JsonView) -> CommandView {
    CommandView { method: "Input.dispatchMouseEvent"@, params }
}

pub open spec fn jstr(s: Seq<char>) -> JsonView {
    JsonView::Str(s)
}

pub open spec fn jnum(n: u64) -> JsonView {
    JsonView::Number(JsonNumber::PosInt(n))
}

/// The key events that type the character `c`: a press and a release of its
/// special key, or of the character as text.
pub open spec fn char_commands(c: char) -> Seq<CommandView> {
    match special_key_view(c) {
        Some(k) => seq![
            key_event(
                JsonView::Object(
                    seq![
                        ("type"@, jstr("keyDown"@)),
                        ("key"@, jstr(k.key)),
                        ("code"@, jstr(k.code)),
                        ("windowsVirtualKeyCode"@, jnum(k.key_code as u64)),
                    ],
                ),
            ),
            key_event(
                JsonView::Object(
                    seq![
                        ("type"@, jstr("keyUp"@)),
                        ("key"@, jstr(k.key)),
                        ("code"@, jstr(k.code)),
                        ("windowsVirtualKeyCode"@, jnum(k.key_code as u64)),
                    ],
                ),
            ),
        ],
        None => seq![
            key_event(
                JsonView::Object(
                    seq![
                        ("type"@, jstr("keyDown"@)),
                        ("text"@, jstr(seq![c])),
                        ("key"@, jstr(seq![c])),
                        ("unmodifiedText"@, jstr(seq![c])),
                    ],
                ),
            ),
            key_event(JsonView::Object(seq![("type"@, jstr("keyUp"@)), ("key"@, jstr(seq![c]))])),
        ],
    }
}

/// The key events that type `text`, character by character.
pub open spec fn typing_commands(text: Seq<char>) -> Seq<CommandView>
    decreases text.len(),
{
    if text.len() == 0 {
        Seq::empty()
    } else {
        typing_commands(text.drop_last()) + char_commands(text.last())
    }
}

fn push_command(v: &mut Vec<CdpCommand>, c: CdpCommand)
    ensures
        command_views(final(v)@) == command_views(old(v)@).push(c@),
{
    let ghost cv = c@;
    v.push(c);
    assert(command_views(v@) =~= command_views(old(v)@).push(cv));
}

/// Appends the key events that type `ch`, whose string is `ch_str`.
fn push_char_commands(out: &mut Vec<CdpCommand>, ch: char, ch_str: &str)
    requires
        ch_str@ == seq![ch],
    ensures
        command_views(final(out)@) == command_views(old(out)@) + char_commands(ch),
{
    match special_key(ch) {
        Some(k) => {
            let down = obj4(
                "type",
                json_str("keyDown"),
                "key",
                json_str(k.key),
                "code",
                json_str(k.code),
                "windowsVirtualKeyCode",
                json_u64(k.key_code as u64),
            );
            let up = obj4(
                "type",
                json_str("keyUp"),
                "key",
                json_str(k.key),
                "code",
                json_str(k.code),
                "windowsVirtualKeyCode",
                json_u64(k.key_code as u64),
            );
            push_command(out, command("Input.dispatchKeyEvent", down));
            push_command(out, command("Input.dispatchKeyEvent", up));
        },
        None => {
            let down = obj4(
                "type",
                json_str("keyDown"),
                "text",
                json_str(ch_str),
                "key",
                json_str(ch_str),
                "unmodifiedText",
                json_str(ch_str),
            );
            let up = obj2("type", json_str("keyUp"), "key", json_str(ch_str));
            push_command(out, command("Input.dispatchKeyEvent", down));
            push_command(out, command("Input.dispatchKeyEvent", up));
        },
    }
    assert(command_views(out@) =~= command_views(old(out)@) + char_commands(ch));
}

/// The key events that type `text`.
pub fn typing_commands_for(text: &str) -> (r: Vec<CdpCommand>)
    ensures
        command_views(r@) == typing_commands(text@),
{
    let n = text.unicode_len();
    let mut out: Vec<CdpCommand> = Vec::new();
    let mut i: usize = 0;
    assert(command_views(out@) =~= typing_commands(text@.subrange(0, 0)));
    while i < n
        invariant
            n == text@.len(),
            i <= n,
            command_views(out@) == typing_commands(text@.subrange(0, i as int)),
        decreases n - i,
    {
        let ch = text.get_char(i);
        let ch_str = text.substring_char(i, i + 1);
        assert(ch_str@ =~= seq![ch]);
        push_char_commands(&mut out, ch, ch_str);
        proof {
            let s = text@.subrange(0, i + 1);
            assert(s.drop_last() =~= text@.subrange(0, i as int));
        }
        i = i + 1;
    }
    assert(text@.subrange(0, n as int) =~= text@);
    out
}

/// The mouse events of a click at `(x, y)`: move, press and release of the
/// left button.
pub open spec fn click_commands_view(x: JsonNumber, y: JsonNumber) -> Seq<CommandView> {
    seq![
        mouse_event(
            JsonView::Object(
                seq![
                    ("type"@, jstr("mouseMoved"@)),
                    ("x"@, JsonView::Number(x)),
                    ("y"@, JsonView::Number(y)),
                ],
            ),
        ),
        mouse_event(
            JsonView::Object(
                seq![
                    ("type"@, jstr("mousePressed"@)),
                    ("x"@, JsonView::Number(x)),
                    ("y"@, JsonView::Number(y)),
                    ("button"@, jstr("left"@)),
                    ("clickCount"@, jnum(1)),
                ],
            ),
        ),
        mouse_event(
            JsonView::Object(
                seq![
                    ("type"@, jstr("mouseReleased"@)),
                    ("x"@, JsonView::Number(x)),
                    ("y"@, JsonView::Number(y)),
                    ("button"@, jstr("left"@)),
                    ("clickCount"@, jnum(1)),
                ],
            ),
        ),
    ]
}

/// The mouse events of a click at `(x, y)`.
pub fn click_commands(x: JsonNumber, y: JsonNumber) -> (r: Vec<CdpCommand>)
    ensures
        command_views(r@) == click_commands_view(x, y),
{
    let mut out: Vec<CdpCommand> = Vec::new();
    assert(command_views(out@) =~= Seq::<CommandView>::empty());
    push_command(&mut out, mouse_moved_command(x, y));
    let pressed = obj5(
        "type",
        json_str("mousePressed"),
        "x",
        Json::Number(x),
        "y",
        Json::Number(y),
        "button",
        json_str("left"),
        "clickCount",
        json_u64(1),
    );
    push_command(&mut out, command("Input.dispatchMouseEvent", pressed));
    let released = obj5(
        "type",
        json_str("mouseReleased"),
        "x",
        Json::Number(x),
        "y",
        Json::Number(y),
        "button",
        json_str("left"),
        "clickCount",
        json_u64(1),
    );
    push_command(&mut out, command("Input.dispatchMouseEvent", released));
    assert(command_views(out@) =~= click_commands_view(x, y));
    out
}

/// The mouse event that moves the pointer to `(x, y)`.
pub fn mouse_moved_command(x: JsonNumber, y: JsonNumber) -> (r: CdpCommand)
    ensures
        r@ == mouse_event(
            JsonView::Object(
                seq![
                    ("type"@, jstr("mouseMoved"@)),
                    ("x"@, JsonView::Number(x)),
                    ("y"@, JsonView::Number(y)),
                ],
            ),
        ),
{
    let p = obj3("type", json_str("mouseMoved"), "x", Json::Number(x), "y", Json::Number(y));
    command("Input.dispatchMouseEvent", p)
}

// ------------------------------------------------------------------ actions

/// One step of an actions request.
pub enum ActionStep {
    /// Send this input event.
    Dispatch(CdpCommand),
    /// Move the pointer as `action` says, relative to the centre of
    /// `origin_element` where there is one.
    PointerMove { action: Json, origin_element: Option<String> },
    /// Wait this many milliseconds (no wait where `None`).
    Pause(Option<u64>),
}

pub enum StepView {
    Dispatch(CommandView),
    PointerMove { action: JsonView, origin_element: Option<Seq<char>> },
    Pause(Option<u64>),
}

impl View for ActionStep {
    type V = StepView;

    open spec fn view(&self) -> StepView {
        match self {
            ActionStep::Dispatch(c) => StepView::Dispatch(c@),
            ActionStep::PointerMove { action, origin_element } => StepView::PointerMove {
                action: action@,
                origin_element: match origin_element {
                    Some(s) => Some(s@),
                    None => None,
                },
            },
            ActionStep::Pause(d) => StepView::Pause(*d),
        }
    }
}

pub open spec fn step_views(s: Seq<ActionStep>) -> Seq<StepView> {
    Seq::new(s.len(), |i: int| s[i]@)
}

pub open spec fn str_or_empty(v: Option<Seq<char>>) -> Seq<char> {
    match v {
        Some(s) => s,
        None => Seq::empty(),
    }
}

/// The element id of a pointer move's origin, where the origin is an element.
pub open spec fn origin_element(action: JsonView) -> Option<Seq<char>> {
    match action.get("origin"@) {
        Some(o) => o.get_str(ELEMENT_KEY@),
        None => None,
    }
}

/// A press or release of a mouse button at `(0, 0)`.
pub open spec fn button_event(kind: Seq<char>, button: i64) -> CommandView {
    mouse_event(
        JsonView::Object(
            seq![
                ("type"@, jstr(kind)),
                ("x"@, jnum(0)),
                ("y"@, jnum(0)),
                ("button"@, jstr(button_name(button))),
                ("clickCount"@, jnum(1)),
            ],
        ),
    )
}

pub open spec fn button_of(action: JsonView) -> i64 {
    match action.get_i64("button"@) {
        Some(b) => b,
        None => 0,
    }
}

/// The step of one action of a pointer source.
pub open spec fn pointer_step(action: JsonView) -> Option<StepView> {
    let t = str_or_empty(action.get_str("type"@));
    if t == "pointerMove"@ {
        Some(StepView::PointerMove { action, origin_element: origin_element(action) })
    } else if t == "pointerDown"@ {
        Some(StepView::Dispatch(button_event("mousePressed"@, button_of(action))))
    } else if t == "pointerUp"@ {
        Some(StepView::Dispatch(button_event("mouseReleased"@, button_of(action))))
    } else if t == "pause"@ {
        Some(StepView::Pause(action.get_u64("duration"@)))
    } else {
        None
    }
}

/// The key event of a key action: the DOM key name, and for a press the
/// key as text where it is a single byte.
pub open spec fn key_step(action: JsonView) -> Option<StepView> {
    let t = str_or_empty(action.get_str("type"@));
    let key = normalized_key(str_or_empty(action.get_str("value"@)));
    if t == "keyDown"@ {
        Some(
            StepView::Dispatch(
                key_event(
                    JsonView::Object(
                        seq![
                            ("type"@, jstr("keyDown"@)),
                            ("key"@, jstr(key)),
                            ("text"@, jstr(
                                if single_byte(key) {
                                    key
                                } else {
                                    Seq::empty()
                                },
                            )),
                        ],
                    ),
                ),
            ),
        )
    } else if t == "keyUp"@ {
        Some(
            StepView::Dispatch(
                key_event(JsonView::Object(seq![("type"@, jstr("keyUp"@)), ("key"@, jstr(key))])),
            ),
        )
    } else if t == "pause"@ {
        Some(StepView::Pause(action.get_u64("duration"@)))
    } else {
        None
    }
}

/// A string of exactly one byte in UTF-8: a single ASCII character.
pub open spec fn single_byte(s: Seq<char>) -> bool {
    s.len() == 1 && (s[0] as u32) < 0x80
}

/// The step of one action of a source of type `source_type`.
pub open spec fn action_step(source_type: Seq<char>, action: JsonView) -> Option<StepView> {
    if source_type == "pointer"@ {
        pointer_step(action)
    } else if source_type == "key"@ {
        key_step(action)
    } else if source_type == "none"@ {
        Some(StepView::Pause(action.get_u64("duration"@)))
    } else {
        None
    }
}

pub open spec fn opt_seq(o: Option<StepView>) -> Seq<StepView> {
    match o {
        Some(s) => seq![s],
        None => Seq::empty(),
    }
}

/// The steps of the actions of one source, in order.
pub open spec fn source_steps(source_type: Seq<char>, actions: Seq<JsonView>) -> Seq<StepView>
    decreases actions.len(),
{
    if actions.len() == 0 {
        Seq::empty()
    } else {
        source_steps(source_type, actions.drop_last()) + opt_seq(
            action_step(source_type, actions.last()),
        )
    }
}

/// The steps of one source of an actions request.
pub open spec fn steps_of_source(source: JsonView) -> Seq<StepView> {
    match source.get_array("actions"@) {
        Some(actions) => source_steps(str_or_empty(source.get_str("type"@)), actions),
        None => Seq::empty(),
    }
}

/// The steps of all sources, source after source.
pub open spec fn plan_steps(sources: Seq<JsonView>) -> Seq<StepView>
    decreases sources.len(),
{
    if sources.len() == 0 {
        Seq::empty()
    } else {
        plan_steps(sources.drop_last()) + steps_of_source(sources.last())
    }
}

fn str_field(v: &Json, key: &str) -> (r: String)
    ensures
        r@ == str_or_empty(v@.get_str(key@)),
{
    match v.get_str(key) {
        Some(s) => String::from_str(s),
        None => {
            proof {
                reveal_strlit("");
            }
            String::new()
        },
    }
}

fn button_event_command(kind: &str, button: i64) -> (r: CdpCommand)
    ensures
        r@ == button_event(kind@, button),
{
    let p = obj5(
        "type",
        json_str(kind),
        "x",
        json_u64(0),
        "y",
        json_u64(0),
        "button",
        json_str(pointer_button_name(button)),
        "clickCount",
        json_u64(1),
    );
    command("Input.dispatchMouseEvent", p)
}

fn step_of_action(source_type: &str, action: &Json) -> (r: Option<ActionStep>)
    ensures
        match r {
            Some(s) => action_step(source_type@, action@) == Some(s@),
            None => action_step(source_type@, action@) is None,
        },
{
    let st = String::from_str(source_type);
    if st == String::from_str("pointer") {
        let t = str_field(action, "type");
        let button = match action.get_i64("button") {
            Some(b) => b,
            None => 0,
        };
        if t == String::from_str("pointerMove") {
            let origin = match action.get("origin") {
                Some(o) => match o.get_str(ELEMENT_KEY) {
                    Some(s) => Some(String::from_str(s)),
                    None => None,
                },
                None => None,
            };
            Some(ActionStep::PointerMove { action: action.deep_clone(), origin_element: origin })
        } else if t == String::from_str("pointerDown") {
            Some(ActionStep::Dispatch(button_event_command("mousePressed", button)))
        } else if t == String::from_str("pointerUp") {
            Some(ActionStep::Dispatch(button_event_command("mouseReleased", button)))
        } else if t == String::from_str("pause") {
            Some(ActionStep::Pause(action.get_u64("duration")))
        } else {
            None
        }
    } else if st == String::from_str("key") {
        let t = str_field(action, "type");
        let value = str_field(action, "value");
        let key = normalize_key(value.as_str());
        if t == String::from_str("keyDown") {
            let text = if key.as_str().unicode_len() == 1 && (key.as_str().get_char(0) as u32) < 0x80 {
                key.clone()
            } else {
                proof {
                    reveal_strlit("");
                }
                String::new()
            };
            let p = obj3("type", json_str("keyDown"), "key", json_string(key), "text", json_string(text));
            Some(ActionStep::Dispatch(command("Input.dispatchKeyEvent", p)))
        } else if t == String::from_str("keyUp") {
            let p = obj2("type", json_str("keyUp"), "key", json_string(key));
            Some(ActionStep::Dispatch(command("Input.dispatchKeyEvent", p)))
        } else if t == String::from_str("pause") {
            Some(ActionStep::Pause(action.get_u64("duration")))
        } else {
            None
        }
    } else if st == String::from_str("none") {
        Some(ActionStep::Pause(action.get_u64("duration")))
    } else {
        None
    }
}

fn push_step(v: &mut Vec<ActionStep>, s: ActionStep)
    ensures
        step_views(final(v)@) == step_views(old(v)@).push(s@),
{
    let ghost sv = s@;
    v.push(s);
    assert(step_views(v@) =~= step_views(old(v)@).push(sv));
}

/// The steps of an actions request, source after source and action after
/// action; a request without an `actions` array is refused.
pub fn plan_actions(body: &Json) -> (r: Result<Vec<ActionStep>, WebDriverError>)
    ensures
        match body@.get_array("actions"@) {
            Some(sources) => r matches Ok(steps) && step_views(steps@) == plan_steps(sources),
            None => r matches Err(e) && e@ == ErrorView::InvalidArgument(
                "Missing 'actions' parameter"@,
            ),
        },
{
    let sources = match body.get_array("actions") {
        Some(a) => a,
        None => {
            return Err(
                WebDriverError::InvalidArgument(String::from_str("Missing 'actions' parameter")),
            );
        },
    };
    let ghost sv = views(sources@);
    let mut steps: Vec<ActionStep> = Vec::new();
    assert(step_views(steps@) =~= plan_steps(sv.subrange(0, 0)));
    let mut i: usize = 0;
    while i < sources.len()
        invariant
            i <= sources.len(),
            sv == views(sources@),
            step_views(steps@) == plan_steps(sv.subrange(0, i as int)),
        decreases sources.len() - i,
    {
        let source = &sources[i];
        let source_type = str_field(source, "type");
        let ghost before = step_views(steps@);
        if let Some(actions) = source.get_array("actions") {
            let ghost av = views(actions@);
            let mut j: usize = 0;
            assert(source_steps(source_type@, av.subrange(0, 0)) =~= Seq::<StepView>::empty());
            assert(before + Seq::<StepView>::empty() =~= before);
            while j < actions.len()
                invariant
                    j <= actions.len(),
                    av == views(actions@),
                    step_views(steps@) == before + source_steps(
                        source_type@,
                        av.subrange(0, j as int),
                    ),
                decreases actions.len() - j,
            {
                let st = step_of_action(source_type.as_str(), &actions[j]);
                proof {
                    let s = av.subrange(0, j + 1);
                    assert(s.drop_last() =~= av.subrange(0, j as int));
                    assert(s.last() == actions@[j as int]@);
                }
                match st {
                    Some(step) => {
                        push_step(&mut steps, step);
                    },
                    None => {},
                }
                assert(step_views(steps@) =~= before + source_steps(
                    source_type@,
                    av.subrange(0, j + 1),
                ));
                j = j + 1;
            }
            assert(av.subrange(0, actions.len() as int) =~= av);
        } else {
            assert(before + Seq::<StepView>::empty() =~= before);
        }
        proof {
            let s = sv.subrange(0, i + 1);
            assert(s.drop_last() =~= sv.subrange(0, i as int));
            assert(s.last() == sources@[i as int]@);
        }
        i = i + 1;
    }
    assert(sv.subrange(0, sources.len() as int) =~= sv);
    Ok(steps)
}

/// The command that asks for the centre of an element, relative to the viewport.
pub open spec fn center_query_view(element_id: Seq<char>) -> CommandView {
    CommandView {
        method: "Runtime.callFunctionOn"@,
        params: JsonView::Object(
            seq![
                ("objectId"@, jstr(element_id)),
                ("functionDeclaration"@, jstr(POINTER_CENTER_JS@)),
                ("returnByValue"@, JsonView::Bool(true)),
            ],
        ),
    }
}

/// The function that gives the centre of an element's bounding box.
pub const POINTER_CENTER_JS: &'static str =
    "function() { const r = this.getBoundingClientRect(); return {x: r.x + r.width/2, y: r.y + r.height/2}; }";

/// The command that asks for the centre of the element a pointer move starts from.
pub fn center_query_command(element_id: &str) -> (r: CdpCommand)
    ensures
        r@ == center_query_view(element_id@),
{
    let p = obj3(
        "objectId",
        json_str(element_id),
        "functionDeclaration",
        json_str(POINTER_CENTER_JS),
        "returnByValue",
        Json::Bool(true),
    );
    command("Runtime.callFunctionOn", p)
}

} // verus!
