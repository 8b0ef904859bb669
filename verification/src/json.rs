//! A JSON document as plain values, and its mathematical view.
//!
//! Every request body, CDP reply and response body that the library reads or
//! builds is a [`Json`]. Object entries keep the order in which they were
//! built; lookups return the first entry with the asked key.
use vstd::prelude::*;

verus! {

/// A JSON number as the wire carries it: a non-negative integer, a negative
/// integer, or a number with a fraction, held by the bit pattern of its
/// IEEE-754 double (the library only carries that pattern, never computes on it).
#[derive(Debug, Clone, Copy, PartialEq, Eq, Structural)]
pub enum JsonNumber {
    PosInt(u64),
    NegInt(i64),
    Float(u64),
}

/// A JSON value.
#[derive(Debug, PartialEq)]
pub enum Json {
    Null,
    Bool(bool),
    Number(JsonNumber),
    Str(String),
    Array(Vec<Json>),
    Object(Vec<(String, Json)>),
}

/// The mathematical view of a JSON value.
pub enum JsonView {
    Null,
    Bool(bool),
    Number(JsonNumber),
    Str(Seq<char>),
    Array(Seq<JsonView>),
    Object(Seq<(Seq<char>, JsonView)>),
}

impl View for Json {
    type V = JsonView;

    open spec fn view(&self) -> JsonView
        decreases self,
    {
        match self {
            Json::Null => JsonView::Null,
            Json::Bool(b) => JsonView::Bool(*b),
            Json::Number(n) => JsonView::Number(*n),
            Json::Str(s) => JsonView::Str(s@),
            Json::Array(v) => JsonView::Array(
                Seq::new(
                    v.len() as nat,
                    |i: int|
                        if 0 <= i < v.len() {
                            v@[i].view()
                        } else {
                            JsonView::Null
                        },
                ),
            ),
            Json::Object(v) => JsonView::Object(
                Seq::new(
                    v.len() as nat,
                    |i: int|
                        if 0 <= i < v.len() {
                            (v@[i].0@, v@[i].1.view())
                        } else {
                            (Seq::empty(), JsonView::Null)
                        },
                ),
            ),
        }
    }
}

/// The views of a sequence of values.
pub open spec fn views(s: Seq<Json>) -> Seq<JsonView> {
    Seq::new(s.len(), |i: int| s[i]@)
}

/// The views of a sequence of object entries.
pub open spec fn entries_view(s: Seq<(String, Json)>) -> Seq<(Seq<char>, JsonView)> {
    Seq::new(s.len(), |i: int| (s[i].0@, s[i].1@))
}

/// The value of the first entry whose key is `key`.
pub open spec fn lookup(entries: Seq<(Seq<char>, JsonView)>, key: Seq<char>) -> Option<JsonView>
    decreases entries.len(),
{
    if entries.len() == 0 {
        None
    } else if entries[0].0 == key {
        Some(entries[0].1)
    } else {
        lookup(entries.drop_first(), key)
    }
}

/// The entries with the first entry of key `key` given the value `val`, or
/// with a new entry `(key, val)` at the end where there is none.
pub open spec fn set_entry(
    entries: Seq<(Seq<char>, JsonView)>,
    key: Seq<char>,
    val: JsonView,
) -> Seq<(Seq<char>, JsonView)>
    decreases entries.len(),
{
    if entries.len() == 0 {
        seq![(key, val)]
    } else if entries[0].0 == key {
        entries.update(0, (key, val))
    } else {
        seq![entries[0]] + set_entry(entries.drop_first(), key, val)
    }
}

impl JsonView {
    /// The value under `key` in an object; `None` for other values.
    pub open spec fn get(self, key: Seq<char>) -> Option<JsonView> {
        match self {
            JsonView::Object(entries) => lookup(entries, key),
            _ => None,
        }
    }

    /// The element at `i` of an array; `None` for other values.
    pub open spec fn at(self, i: int) -> Option<JsonView> {
        match self {
            JsonView::Array(items) => if 0 <= i < items.len() {
                Some(items[i])
            } else {
                None
            },
            _ => None,
        }
    }

    pub open spec fn as_str(self) -> Option<Seq<char>> {
        match self {
            JsonView::Str(s) => Some(s),
            _ => None,
        }
    }

    pub open spec fn as_bool(self) -> Option<bool> {
        match self {
            JsonView::Bool(b) => Some(b),
            _ => None,
        }
    }

    /// A non-negative integer that fits in `u64`.
    pub open spec fn as_u64(self) -> Option<u64> {
        match self {
            JsonView::Number(JsonNumber::PosInt(n)) => Some(n),
            _ => None,
        }
    }

    /// An integer that fits in `i64`.
    pub open spec fn as_i64(self) -> Option<i64> {
        match self {
            JsonView::Number(JsonNumber::PosInt(n)) => if n <= i64::MAX {
                Some(n as i64)
            } else {
                None
            },
            JsonView::Number(JsonNumber::NegInt(n)) => Some(n),
            _ => None,
        }
    }

    pub open spec fn as_array(self) -> Option<Seq<JsonView>> {
        match self {
            JsonView::Array(items) => Some(items),
            _ => None,
        }
    }

    /// `get` followed by `as_str`.
    pub open spec fn get_str(self, key: Seq<char>) -> Option<Seq<char>> {
        match self.get(key) {
            Some(v) => v.as_str(),
            None => None,
        }
    }

    /// `get` followed by `as_bool`.
    pub open spec fn get_bool(self, key: Seq<char>) -> Option<bool> {
        match self.get(key) {
            Some(v) => v.as_bool(),
            None => None,
        }
    }

    /// `get` followed by `as_u64`.
    pub open spec fn get_u64(self, key: Seq<char>) -> Option<u64> {
        match self.get(key) {
            Some(v) => v.as_u64(),
            None => None,
        }
    }

    /// `get` followed by `as_i64`.
    pub open spec fn get_i64(self, key: Seq<char>) -> Option<i64> {
        match self.get(key) {
            Some(v) => v.as_i64(),
            None => None,
        }
    }

    /// `get` followed by `as_array`.
    pub open spec fn get_array(self, key: Seq<char>) -> Option<Seq<JsonView>> {
        match self.get(key) {
            Some(v) => v.as_array(),
            None => None,
        }
    }

    /// `get("result")` then `get("value")`: where a CDP evaluation puts its value.
    pub open spec fn result_value(self) -> Option<JsonView> {
        match self.get("result"@) {
            Some(r) => r.get("value"@),
            None => None,
        }
    }

    /// This object with `key` set to `val`.
    pub open spec fn with(self, key: Seq<char>, val: JsonView) -> JsonView {
        match self {
            JsonView::Object(entries) => JsonView::Object(set_entry(entries, key, val)),
            _ => self,
        }
    }
}

/// The view of a JSON number written from an `i64`.
pub open spec fn int_number(n: i64) -> JsonNumber {
    if n >= 0 {
        JsonNumber::PosInt(n as u64)
    } else {
        JsonNumber::NegInt(n)
    }
}

/// `{"value": v}`: the shape of every WebDriver response body.
pub open spec fn value_body(v: JsonView) -> JsonView {
    JsonView::Object(seq![("value"@, v)])
}

pub proof fn lemma_object_view(v: Vec<(String, Json)>)
    ensures
        Json::Object(v)@ == JsonView::Object(entries_view(v@)),
{
    reveal_with_fuel(<Json as View>::view, 2);
    assert(Json::Object(v)@->Object_0 =~= entries_view(v@));
}

pub proof fn lemma_array_view(v: Vec<Json>)
    ensures
        Json::Array(v)@ == JsonView::Array(views(v@)),
{
    reveal_with_fuel(<Json as View>::view, 2);
    assert(Json::Array(v)@->Array_0 =~= views(v@));
}

proof fn lemma_lookup_index(e: Seq<(Seq<char>, JsonView)>, key: Seq<char>, idx: Option<usize>)
    requires
        match idx {
            Some(i) => {
                &&& i < e.len()
                &&& e[i as int].0 == key
                &&& forall|j: int| 0 <= j < i ==> e[j].0 != key
            },
            None => forall|j: int| 0 <= j < e.len() ==> e[j].0 != key,
        },
    ensures
        match idx {
            Some(i) => lookup(e, key) == Some(e[i as int].1),
            None => lookup(e, key) is None,
        },
    decreases e.len(),
{
    if e.len() > 0 {
        match idx {
            Some(i) => {
                if i > 0 {
                    assert forall|j: int| 0 <= j < i - 1 implies e.drop_first()[j].0 != key by {
                        assert(e.drop_first()[j] == e[j + 1]);
                    }
                    lemma_lookup_index(e.drop_first(), key, Some((i - 1) as usize));
                }
            },
            None => {
                assert forall|j: int| 0 <= j < e.len() - 1 implies e.drop_first()[j].0 != key by {
                    assert(e.drop_first()[j] == e[j + 1]);
                }
                lemma_lookup_index(e.drop_first(), key, None);
            },
        }
    }
}

proof fn lemma_set_entry_prefix(e: Seq<(Seq<char>, JsonView)>, key: Seq<char>, val: JsonView, i: int)
    requires
        0 <= i <= e.len(),
        forall|j: int| 0 <= j < i ==> e[j].0 != key,
    ensures
        set_entry(e, key, val) == e.subrange(0, i) + set_entry(e.subrange(i, e.len() as int), key, val),
    decreases i,
{
    if i > 0 {
        lemma_set_entry_prefix(e.drop_first(), key, val, i - 1);
        assert(e.drop_first().subrange(0, i - 1) =~= e.subrange(1, i));
        assert(e.drop_first().subrange(i - 1, e.len() - 1) =~= e.subrange(i, e.len() as int));
        assert(seq![e[0]] + e.subrange(1, i) =~= e.subrange(0, i));
        assert(seq![e[0]] + (e.subrange(1, i) + set_entry(e.subrange(i, e.len() as int), key, val))
            =~= (seq![e[0]] + e.subrange(1, i)) + set_entry(e.subrange(i, e.len() as int), key, val));
    } else {
        assert(e.subrange(0, 0) + set_entry(e, key, val) =~= set_entry(e, key, val));
        assert(e.subrange(0, e.len() as int) =~= e);
    }
}

/// A string value.
pub fn json_str(s: &str) -> (r: Json)
    ensures
        r@ == JsonView::Str(s@),
{
    Json::Str(String::from_str(s))
}

/// A string value that takes ownership of `s`.
pub fn json_string(s: String) -> (r: Json)
    ensures
        r@ == JsonView::Str(s@),
{
    Json::Str(s)
}

/// A number written from an `i64`, as `serde_json` writes one.
pub fn json_i64(n: i64) -> (r: Json)
    ensures
        r@ == JsonView::Number(int_number(n)),
{
    if n >= 0 {
        Json::Number(JsonNumber::PosInt(n as u64))
    } else {
        Json::Number(JsonNumber::NegInt(n))
    }
}

/// A number written from a `u64`.
pub fn json_u64(n: u64) -> (r: Json)
    ensures
        r@ == JsonView::Number(JsonNumber::PosInt(n)),
{
    Json::Number(JsonNumber::PosInt(n))
}

/// An object with the given entries, in order.
pub fn json_object(entries: Vec<(String, Json)>) -> (r: Json)
    ensures
        r@ == JsonView::Object(entries_view(entries@)),
{
    proof {
        lemma_object_view(entries);
    }
    Json::Object(entries)
}

/// An array with the given items, in order.
pub fn json_array(items: Vec<Json>) -> (r: Json)
    ensures
        r@ == JsonView::Array(views(items@)),
{
    proof {
        lemma_array_view(items);
    }
    Json::Array(items)
}

/// No entries, to build an object from.
pub fn new_entries() -> (r: Vec<(String, Json)>)
    ensures
        entries_view(r@) == Seq::<(Seq<char>, JsonView)>::empty(),
        r@.len() == 0,
{
    let r: Vec<(String, Json)> = Vec::new();
    assert(entries_view(r@) =~= Seq::<(Seq<char>, JsonView)>::empty());
    r
}

/// No items, to build an array from.
pub fn new_items() -> (r: Vec<Json>)
    ensures
        views(r@) == Seq::<JsonView>::empty(),
        r@.len() == 0,
{
    let r: Vec<Json> = Vec::new();
    assert(views(r@) =~= Seq::<JsonView>::empty());
    r
}

/// Appends the entry `(key, value)` to the entries of an object under construction.
pub fn add_entry(entries: &mut Vec<(String, Json)>, key: &str, value: Json)
    ensures
        entries_view(final(entries)@) == entries_view(old(entries)@).push((key@, value@)),
{
    entries.push((String::from_str(key), value));
    assert(entries_view(entries@) =~= entries_view(old(entries)@).push((key@, value@)));
}

/// Appends the entry `(key, value)`, taking ownership of the key.
pub fn push_entry(entries: &mut Vec<(String, Json)>, key: String, value: Json)
    ensures
        entries_view(final(entries)@) == entries_view(old(entries)@).push((key@, value@)),
{
    let ghost kv = key@;
    let ghost vv = value@;
    entries.push((key, value));
    assert(entries_view(entries@) =~= entries_view(old(entries)@).push((kv, vv)));
}

/// Appends an item to the items of an array under construction.
pub fn add_item(items: &mut Vec<Json>, value: Json)
    ensures
        views(final(items)@) == views(old(items)@).push(value@),
{
    items.push(value);
    assert(views(items@) =~= views(old(items)@).push(value@));
}

/// `{k1: v1}`.
pub fn obj1(k1: &str, v1: Json) -> (r: Json)
    ensures
        r@ == JsonView::Object(seq![(k1@, v1@)]),
{
    let ghost w1 = v1@;
    let mut e = new_entries();
    add_entry(&mut e, k1, v1);
    assert(entries_view(e@) =~= seq![(k1@, w1)]);
    json_object(e)
}

/// `{k1: v1, k2: v2}`.
pub fn obj2(k1: &str, v1: Json, k2: &str, v2: Json) -> (r: Json)
    ensures
        r@ == JsonView::Object(seq![(k1@, v1@), (k2@, v2@)]),
{
    let ghost w1 = v1@;
    let ghost w2 = v2@;
    let mut e = new_entries();
    add_entry(&mut e, k1, v1);
    add_entry(&mut e, k2, v2);
    assert(entries_view(e@) =~= seq![(k1@, w1), (k2@, w2)]);
    json_object(e)
}

/// `{k1: v1, k2: v2, k3: v3}`.
pub fn obj3(k1: &str, v1: Json, k2: &str, v2: Json, k3: &str, v3: Json) -> (r: Json)
    ensures
        r@ == JsonView::Object(seq![(k1@, v1@), (k2@, v2@), (k3@, v3@)]),
{
    let ghost w1 = v1@;
    let ghost w2 = v2@;
    let ghost w3 = v3@;
    let mut e = new_entries();
    add_entry(&mut e, k1, v1);
    add_entry(&mut e, k2, v2);
    add_entry(&mut e, k3, v3);
    assert(entries_view(e@) =~= seq![(k1@, w1), (k2@, w2), (k3@, w3)]);
    json_object(e)
}

/// `{k1: v1, k2: v2, k3: v3, k4: v4}`.
pub fn obj4(k1: &str, v1: Json, k2: &str, v2: Json, k3: &str, v3: Json, k4: &str, v4: Json) -> (r:
    Json)
    ensures
        r@ == JsonView::Object(seq![(k1@, v1@), (k2@, v2@), (k3@, v3@), (k4@, v4@)]),
{
    let ghost w1 = v1@;
    let ghost w2 = v2@;
    let ghost w3 = v3@;
    let ghost w4 = v4@;
    let mut e = new_entries();
    add_entry(&mut e, k1, v1);
    add_entry(&mut e, k2, v2);
    add_entry(&mut e, k3, v3);
    add_entry(&mut e, k4, v4);
    assert(entries_view(e@) =~= seq![(k1@, w1), (k2@, w2), (k3@, w3), (k4@, w4)]);
    json_object(e)
}

/// `{k1: v1, k2: v2, k3: v3, k4: v4, k5: v5}`.
pub fn obj5(
    k1: &str,
    v1: Json,
    k2: &str,
    v2: Json,
    k3: &str,
    v3: Json,
    k4: &str,
    v4: Json,
    k5: &str,
    v5: Json,
) -> (r: Json)
    ensures
        r@ == JsonView::Object(seq![(k1@, v1@), (k2@, v2@), (k3@, v3@), (k4@, v4@), (k5@, v5@)]),
{
    let ghost w1 = v1@;
    let ghost w2 = v2@;
    let ghost w3 = v3@;
    let ghost w4 = v4@;
    let ghost w5 = v5@;
    let mut e = new_entries();
    add_entry(&mut e, k1, v1);
    add_entry(&mut e, k2, v2);
    add_entry(&mut e, k3, v3);
    add_entry(&mut e, k4, v4);
    add_entry(&mut e, k5, v5);
    assert(entries_view(e@) =~= seq![(k1@, w1), (k2@, w2), (k3@, w3), (k4@, w4), (k5@, w5)]);
    json_object(e)
}

/// `{}`.
pub fn empty_object() -> (r: Json)
    ensures
        r@ == JsonView::Object(Seq::empty()),
{
    json_object(new_entries())
}

/// `[]`.
pub fn empty_array() -> (r: Json)
    ensures
        r@ == JsonView::Array(Seq::empty()),
{
    json_array(new_items())
}

/// `{"value": v}`.
pub fn value_response(v: Json) -> (r: Json)
    ensures
        r@ == value_body(v@),
{
    let mut e = new_entries();
    add_entry(&mut e, "value", v);
    let r = json_object(e);
    assert(r@->Object_0 =~= seq![("value"@, v@)]);
    r
}

/// `{"value": null}`.
pub fn null_response() -> (r: Json)
    ensures
        r@ == value_body(JsonView::Null),
{
    value_response(Json::Null)
}

impl Json {
    /// A copy of this value.
    pub fn deep_clone(&self) -> (r: Json)
        ensures
            r@ == self@,
        decreases self,
    {
        match self {
            Json::Null => Json::Null,
            Json::Bool(b) => Json::Bool(*b),
            Json::Number(n) => Json::Number(*n),
            Json::Str(s) => Json::Str(s.clone()),
            Json::Array(v) => {
                let mut out: Vec<Json> = Vec::new();
                let mut i: usize = 0;
                while i < v.len()
                    invariant
                        i <= v.len(),
                        *self == Json::Array(*v),
                        views(out@) == views(v@).subrange(0, i as int),
                    decreases v.len() - i,
                {
                    proof {
                        broadcast use vstd::std_specs::vec::axiom_vec_index_decreases;
                        assert(decreases_to!(*v => v[i as int]));
                        assert(decreases_to!(*self => (*self)->Array_0));
                        assert(decreases_to!(*self => v[i as int]));
                    }
                    let c = v[i].deep_clone();
                    add_item(&mut out, c);
                    assert(views(v@).subrange(0, i as int).push(c@) =~= views(v@).subrange(0, i + 1));
                    i = i + 1;
                }
                assert(views(v@).subrange(0, v.len() as int) =~= views(v@));
                proof {
                    lemma_array_view(*v);
                }
                json_array(out)
            },
            Json::Object(v) => {
                let mut out: Vec<(String, Json)> = Vec::new();
                let mut i: usize = 0;
                while i < v.len()
                    invariant
                        i <= v.len(),
                        *self == Json::Object(*v),
                        entries_view(out@) == entries_view(v@).subrange(0, i as int),
                    decreases v.len() - i,
                {
                    proof {
                        broadcast use vstd::std_specs::vec::axiom_vec_index_decreases;
                        assert(decreases_to!(*v => v[i as int]));
                        assert(decreases_to!(v[i as int] => v[i as int].1));
                        assert(decreases_to!(*self => (*self)->Object_0));
                        assert(decreases_to!(*self => v[i as int]));
                        assert(decreases_to!(*self => v[i as int].1));
                    }
                    let c = v[i].1.deep_clone();
                    let k = v[i].0.clone();
                    push_entry(&mut out, k, c);
                    assert(entries_view(v@).subrange(0, i as int).push((v@[i as int].0@, c@)) =~= entries_view(v@).subrange(0, i + 1));
                    i = i + 1;
                }
                assert(entries_view(v@).subrange(0, v.len() as int) =~= entries_view(v@));
                proof {
                    lemma_object_view(*v);
                }
                json_object(out)
            },
        }
    }

    /// The index of the first entry with key `key`, for an object.
    pub fn key_index(&self, key: &str) -> (r: Option<usize>)
        ensures
            self@ is Object ==> match r {
                Some(i) => {
                    &&& i < self@->Object_0.len()
                    &&& self@->Object_0[i as int].0 == key@
                    &&& forall|j: int| 0 <= j < i ==> self@->Object_0[j].0 != key@
                },
                None => forall|j: int| 0 <= j < self@->Object_0.len() ==> self@->Object_0[j].0 != key@,
            },
            !(self@ is Object) ==> r is None,
    {
        match self {
            Json::Object(v) => {
                proof {
                    lemma_object_view(*v);
                }
                let ghost e = entries_view(v@);
                let k = String::from_str(key);
                let mut i: usize = 0;
                while i < v.len()
                    invariant
                        i <= v.len(),
                        e == entries_view(v@),
                        self@ == JsonView::Object(e),
                        k@ == key@,
                        forall|j: int| 0 <= j < i ==> e[j].0 != key@,
                    decreases v.len() - i,
                {
                    if v[i].0 == k {
                        return Some(i);
                    }
                    i = i + 1;
                }
                None
            },
            _ => None,
        }
    }

    /// The value under `key`, for an object; `None` otherwise.
    pub fn get(&self, key: &str) -> (r: Option<&Json>)
        ensures
            match r {
                Some(x) => self@.get(key@) == Some(x@),
                None => self@.get(key@) is None,
            },
    {
        let idx = self.key_index(key);
        match self {
            Json::Object(v) => {
                proof {
                    lemma_object_view(*v);
                    lemma_lookup_index(entries_view(v@), key@, idx);
                }
                match idx {
                    Some(i) => Some(&v[i].1),
                    None => None,
                }
            },
            _ => None,
        }
    }

    /// The element at `i`, for an array; `None` otherwise.
    pub fn at(&self, i: usize) -> (r: Option<&Json>)
        ensures
            match r {
                Some(x) => self@.at(i as int) == Some(x@),
                None => self@.at(i as int) is None,
            },
    {
        match self {
            Json::Array(v) => {
                proof {
                    lemma_array_view(*v);
                }
                if i < v.len() {
                    Some(&v[i])
                } else {
                    None
                }
            },
            _ => None,
        }
    }

    pub fn as_str(&self) -> (r: Option<&str>)
        ensures
            match r {
                Some(s) => self@.as_str() == Some(s@),
                None => self@.as_str() is None,
            },
    {
        match self {
            Json::Str(s) => Some(s.as_str()),
            _ => None,
        }
    }

    pub fn as_bool(&self) -> (r: Option<bool>)
        ensures
            r == self@.as_bool(),
    {
        match self {
            Json::Bool(b) => Some(*b),
            _ => None,
        }
    }

    pub fn as_u64(&self) -> (r: Option<u64>)
        ensures
            r == self@.as_u64(),
    {
        match self {
            Json::Number(JsonNumber::PosInt(n)) => Some(*n),
            _ => None,
        }
    }

    pub fn as_i64(&self) -> (r: Option<i64>)
        ensures
            r == self@.as_i64(),
    {
        match self {
            Json::Number(JsonNumber::PosInt(n)) => {
                if *n <= i64::MAX as u64 {
                    Some(*n as i64)
                } else {
                    None
                }
            },
            Json::Number(JsonNumber::NegInt(n)) => Some(*n),
            _ => None,
        }
    }

    pub fn as_array(&self) -> (r: Option<&Vec<Json>>)
        ensures
            match r {
                Some(items) => self@.as_array() == Some(views(items@)),
                None => self@.as_array() is None,
            },
    {
        match self {
            Json::Array(v) => {
                proof {
                    lemma_array_view(*v);
                }
                Some(v)
            },
            _ => None,
        }
    }

    /// `get(key)` then `as_str`.
    pub fn get_str(&self, key: &str) -> (r: Option<&str>)
        ensures
            match r {
                Some(s) => self@.get_str(key@) == Some(s@),
                None => self@.get_str(key@) is None,
            },
    {
        match self.get(key) {
            Some(v) => v.as_str(),
            None => None,
        }
    }

    /// `get(key)` then `as_bool`.
    pub fn get_bool(&self, key: &str) -> (r: Option<bool>)
        ensures
            r == self@.get_bool(key@),
    {
        match self.get(key) {
            Some(v) => v.as_bool(),
            None => None,
        }
    }

    /// `get(key)` then `as_u64`.
    pub fn get_u64(&self, key: &str) -> (r: Option<u64>)
        ensures
            r == self@.get_u64(key@),
    {
        match self.get(key) {
            Some(v) => v.as_u64(),
            None => None,
        }
    }

    /// `get(key)` then `as_i64`.
    pub fn get_i64(&self, key: &str) -> (r: Option<i64>)
        ensures
            r == self@.get_i64(key@),
    {
        match self.get(key) {
            Some(v) => v.as_i64(),
            None => None,
        }
    }

    /// `get(key)` then `as_array`.
    pub fn get_array(&self, key: &str) -> (r: Option<&Vec<Json>>)
        ensures
            match r {
                Some(items) => self@.get_array(key@) == Some(views(items@)),
                None => self@.get_array(key@) is None,
            },
    {
        match self.get(key) {
            Some(v) => v.as_array(),
            None => None,
        }
    }

    /// `get("result")` then `get("value")`.
    pub fn result_value(&self) -> (r: Option<&Json>)
        ensures
            match r {
                Some(x) => self@.result_value() == Some(x@),
                None => self@.result_value() is None,
            },
    {
        match self.get("result") {
            Some(res) => res.get("value"),
            None => None,
        }
    }

    /// Sets `key` to `val` in an object (replacing the first entry with that
    /// key, or appending one); other values are left as they are.
    pub fn set(&mut self, key: &str, val: Json)
        ensures
            final(self)@ == old(self)@.with(key@, val@),
    {
        let idx = self.key_index(key);
        let ghost vv = val@;
        match self {
            Json::Object(v) => {
                let ghost e0 = entries_view(v@);
                proof {
                    lemma_object_view(*v);
                }
                let k = String::from_str(key);
                match idx {
                    Some(i) => {
                        proof {
                            lemma_set_entry_prefix(e0, key@, vv, i as int);
                        }
                        v.set(i, (k, val));
                        proof {
                            let rest = e0.subrange(i as int, e0.len() as int);
                            assert(rest[0].0 == key@);
                            assert(entries_view(v@) =~= e0.subrange(0, i as int) + rest.update(0, (key@, vv)));
                        }
                    },
                    None => {
                        proof {
                            lemma_set_entry_prefix(e0, key@, vv, e0.len() as int);
                        }
                        v.push((k, val));
                        proof {
                            assert(e0.subrange(e0.len() as int, e0.len() as int) =~= Seq::<(Seq<char>, JsonView)>::empty());
                            assert(entries_view(v@) =~= e0.subrange(0, e0.len() as int) + seq![(key@, vv)]);
                        }
                    },
                }
                proof {
                    lemma_object_view(*v);
                }
            },
            _ => {},
        }
    }
}

proof fn lemma_lookup_set_entry(e: Seq<(Seq<char>, JsonView)>, key: Seq<char>, val: JsonView, other: Seq<char>)
    ensures
        lookup(set_entry(e, key, val), key) == Some(val),
        other != key ==> lookup(set_entry(e, key, val), other) == lookup(e, other),
    decreases e.len(),
{
    reveal_with_fuel(lookup, 2);
    if e.len() > 0 && e[0].0 != key {
        lemma_lookup_set_entry(e.drop_first(), key, val, other);
        let s = seq![e[0]] + set_entry(e.drop_first(), key, val);
        assert(s.drop_first() =~= set_entry(e.drop_first(), key, val));
    } else if e.len() > 0 {
        assert(e.update(0, (key, val)).drop_first() =~= e.drop_first());
    }
}

/// Reading a key of an object after setting it gives the value that was
/// set, and every other key reads as before.
pub proof fn set_then_get_law(obj: Seq<(Seq<char>, JsonView)>, key: Seq<char>, val: JsonView, other: Seq<char>)
    ensures
        JsonView::Object(obj).with(key, val).get(key) == Some(val),
        other != key ==> JsonView::Object(obj).with(key, val).get(other) == JsonView::Object(obj).get(other),
{
    lemma_lookup_set_entry(obj, key, val, other);
}

} // verus!

