//! JSON values as the tools read and build them: the arguments of a tool
//! call and the documents the tools answer with.
//!
//! Objects keep their members in insertion order; a lookup finds the first
//! member with the key.  Numbers are non-negative integers, negative
//! integers, or other numbers kept by their decimal text.
use vstd::prelude::*;
use crate::text::{chars_of, eq_str};

verus! {

/// A JSON number.
#[derive(Debug)]
pub enum JsonNumber {
    /// A non-negative integer.
    PosInt(u64),
    /// A negative integer.
    NegInt(i64),
    /// Any other number, by its decimal text.
    Float(String),
}

/// A JSON value.
#[derive(Debug)]
pub enum JsonValue {
    Null,
    Bool(bool),
    Number(JsonNumber),
    Str(String),
    Array(Vec<JsonValue>),
    Object(Vec<(String, JsonValue)>),
}

/// The mathematical content of a JSON number.
pub enum NumberView {
    PosInt(u64),
    NegInt(i64),
    Float(Seq<char>),
}

/// The mathematical content of a JSON value.
pub enum JsonView {
    Null,
    Bool(bool),
    Number(NumberView),
    Str(Seq<char>),
    Array(Seq<JsonView>),
    Object(Seq<(Seq<char>, JsonView)>),
}

/// The content of a number.
pub open spec fn number_view(n: JsonNumber) -> NumberView {
    match n {
        JsonNumber::PosInt(u) => NumberView::PosInt(u),
        JsonNumber::NegInt(i) => NumberView::NegInt(i),
        JsonNumber::Float(s) => NumberView::Float(s@),
    }
}

/// The content of a value.
pub open spec fn json_view(v: JsonValue) -> JsonView
    decreases v,
{
    match v {
        JsonValue::Null => JsonView::Null,
        JsonValue::Bool(b) => JsonView::Bool(b),
        JsonValue::Number(n) => JsonView::Number(number_view(n)),
        JsonValue::Str(s) => JsonView::Str(s@),
        JsonValue::Array(items) => JsonView::Array(elems_view(items@)),
        JsonValue::Object(members) => JsonView::Object(members_view(members@)),
    }
}

/// The contents of a sequence of values.
pub open spec fn elems_view(s: Seq<JsonValue>) -> Seq<JsonView>
    decreases s,
{
    if s.len() == 0 {
        Seq::empty()
    } else {
        elems_view(s.drop_last()).push(json_view(s.last()))
    }
}

/// The contents of a sequence of object members.
pub open spec fn members_view(s: Seq<(String, JsonValue)>) -> Seq<(Seq<char>, JsonView)>
    decreases s,
{
    if s.len() == 0 {
        Seq::empty()
    } else {
        members_view(s.drop_last()).push((s.last().0@, json_view(s.last().1)))
    }
}

impl View for JsonValue {
    type V = JsonView;

    open spec fn view(&self) -> JsonView {
        json_view(*self)
    }
}

/// The first member of an object with the key.
pub open spec fn member(m: Seq<(Seq<char>, JsonView)>, key: Seq<char>) -> Option<JsonView>
    decreases m.len(),
{
    if m.len() == 0 {
        None
    } else if m[0].0 == key {
        Some(m[0].1)
    } else {
        member(m.drop_first(), key)
    }
}

/// `Value::get` with a string key: the member of an object, nothing for
/// other values.
pub open spec fn jget(v: JsonView, key: Seq<char>) -> Option<JsonView> {
    match v {
        JsonView::Object(m) => member(m, key),
        _ => None,
    }
}

/// `Value::as_str`.
pub open spec fn jstr(v: Option<JsonView>) -> Option<Seq<char>> {
    match v {
        Some(JsonView::Str(s)) => Some(s),
        _ => None,
    }
}

/// `Value::as_u64`: non-negative integers only.
pub open spec fn ju64(v: Option<JsonView>) -> Option<u64> {
    match v {
        Some(JsonView::Number(NumberView::PosInt(u))) => Some(u),
        _ => None,
    }
}

/// `Value::as_bool`.
pub open spec fn jbool(v: Option<JsonView>) -> Option<bool> {
    match v {
        Some(JsonView::Bool(b)) => Some(b),
        _ => None,
    }
}

/// `Value::as_array`.
pub open spec fn jarray(v: Option<JsonView>) -> Option<Seq<JsonView>> {
    match v {
        Some(JsonView::Array(a)) => Some(a),
        _ => None,
    }
}

/// A string member `(key, value)` of a view.
pub open spec fn str_member(key: Seq<char>, value: Seq<char>) -> (Seq<char>, JsonView) {
    (key, JsonView::Str(value))
}

/// A non-negative integer member of a view.
pub open spec fn uint_member(key: Seq<char>, value: u64) -> (Seq<char>, JsonView) {
    (key, JsonView::Number(NumberView::PosInt(value)))
}

proof fn lemma_elems_view(s: Seq<JsonValue>, i: int)
    requires
        0 <= i < s.len(),
    ensures
        elems_view(s).len() == s.len(),
        elems_view(s)[i] == json_view(s[i]),
    decreases s.len(),
{
    if i < s.len() - 1 {
        lemma_elems_view(s.drop_last(), i);
    } else {
        lemma_elems_len(s.drop_last());
    }
}

proof fn lemma_elems_len(s: Seq<JsonValue>)
    ensures
        elems_view(s).len() == s.len(),
    decreases s.len(),
{
    if s.len() > 0 {
        lemma_elems_len(s.drop_last());
    }
}

proof fn lemma_members_view(s: Seq<(String, JsonValue)>, i: int)
    requires
        0 <= i < s.len(),
    ensures
        members_view(s).len() == s.len(),
        members_view(s)[i] == (s[i].0@, json_view(s[i].1)),
    decreases s.len(),
{
    if i < s.len() - 1 {
        lemma_members_view(s.drop_last(), i);
    } else {
        lemma_members_len(s.drop_last());
    }
}

proof fn lemma_members_len(s: Seq<(String, JsonValue)>)
    ensures
        members_view(s).len() == s.len(),
    decreases s.len(),
{
    if s.len() > 0 {
        lemma_members_len(s.drop_last());
    }
}

/// The views of a vector's elements, element by element.
pub proof fn lemma_array_view(items: Seq<JsonValue>)
    ensures
        elems_view(items).len() == items.len(),
        forall|i: int| 0 <= i < items.len() ==> #[trigger] elems_view(items)[i] == json_view(items[i]),
{
    lemma_elems_len(items);
    assert forall|i: int| 0 <= i < items.len() implies #[trigger] elems_view(items)[i] == json_view(items[i]) by {
        lemma_elems_view(items, i);
    }
}

/// The views of an object's members, member by member.
pub proof fn lemma_object_view(members: Seq<(String, JsonValue)>)
    ensures
        members_view(members).len() == members.len(),
        forall|i: int| 0 <= i < members.len() ==> #[trigger] members_view(members)[i] == (members[i].0@, json_view(members[i].1)),
{
    lemma_members_len(members);
    assert forall|i: int| 0 <= i < members.len() implies #[trigger] members_view(members)[i] == (members[i].0@, json_view(members[i].1)) by {
        lemma_members_view(members, i);
    }
}

impl JsonValue {
    /// `Value::get` with a string key.
    pub fn get(&self, key: &str) -> (r: Option<&JsonValue>)
        ensures
            match r {
                Some(v) => jget(self@, key@) == Some(v@),
                None => jget(self@, key@) is None,
            },
    {
        match self {
            JsonValue::Object(members) => {
                proof {
                    lemma_object_view(members@);
                }
                let ghost m = members_view(members@);
                assert(m.skip(0) =~= m);
                let mut i: usize = 0;
                while i < members.len()
                    invariant
                        i <= members@.len(),
                        m == members_view(members@),
                        self@ == JsonView::Object(m),
                        m.len() == members@.len(),
                        forall|k: int| 0 <= k < m.len() ==> #[trigger] m[k] == (members@[k].0@, json_view(members@[k].1)),
                        member(m, key@) == member(m.skip(i as int), key@),
                    decreases members.len() - i,
                {
                    assert(m.skip(i as int).drop_first() =~= m.skip(i + 1));
                    assert(m.skip(i as int)[0] == m[i as int]);
                    let name = chars_of(members[i].0.as_str());
                    if eq_str(name.as_slice(), key) {
                        return Some(&members[i].1);
                    }
                    i += 1;
                }
                assert(m.skip(i as int).len() == 0);
                None
            },
            _ => None,
        }
    }

    /// `Value::as_str`.
    pub fn as_str(&self) -> (r: Option<&str>)
        ensures
            match r {
                Some(s) => jstr(Some(self@)) == Some(s@),
                None => jstr(Some(self@)) is None,
            },
    {
        match self {
            JsonValue::Str(s) => Some(s.as_str()),
            _ => None,
        }
    }

    /// `Value::as_u64`.
    pub fn as_u64(&self) -> (r: Option<u64>)
        ensures
            r == ju64(Some(self@)),
    {
        match self {
            JsonValue::Number(JsonNumber::PosInt(u)) => Some(*u),
            _ => None,
        }
    }

    /// `Value::as_bool`.
    pub fn as_bool(&self) -> (r: Option<bool>)
        ensures
            r == jbool(Some(self@)),
    {
        match self {
            JsonValue::Bool(b) => Some(*b),
            _ => None,
        }
    }

    /// `Value::as_array`.
    pub fn as_array(&self) -> (r: Option<&Vec<JsonValue>>)
        ensures
            match r {
                Some(a) => jarray(Some(self@)) == Some(elems_view(a@)),
                None => jarray(Some(self@)) is None,
            },
    {
        match self {
            JsonValue::Array(a) => Some(a),
            _ => None,
        }
    }

    /// A deep copy.
    pub fn duplicate(&self) -> (r: JsonValue)
        ensures
            r@ == self@,
        decreases self,
    {
        match self {
            JsonValue::Null => JsonValue::Null,
            JsonValue::Bool(b) => JsonValue::Bool(*b),
            JsonValue::Number(JsonNumber::PosInt(u)) => JsonValue::Number(JsonNumber::PosInt(*u)),
            JsonValue::Number(JsonNumber::NegInt(i)) => JsonValue::Number(JsonNumber::NegInt(*i)),
            JsonValue::Number(JsonNumber::Float(s)) => JsonValue::Number(JsonNumber::Float(s.clone())),
            JsonValue::Str(s) => JsonValue::Str(s.clone()),
            JsonValue::Array(items) => {
                let mut out: Vec<JsonValue> = Vec::new();
                let mut i: usize = 0;
                while i < items.len()
                    invariant
                        i <= items@.len(),
                        decreases_to!(self => items),
                        elems_view(out@) == elems_view(items@.take(i as int)),
                    decreases items.len() - i,
                {
                    proof {
                        assert(decreases_to!(items => items@));
                        assert(decreases_to!(items@ => items@[i as int]));
                    }
                    let c = items[i].duplicate();
                    let ghost before = out@;
                    out.push(c);
                    assert(out@.drop_last() =~= before);
                    assert(items@.take(i + 1).drop_last() =~= items@.take(i as int));
                    i += 1;
                }
                assert(items@.take(items@.len() as int) =~= items@);
                JsonValue::Array(out)
            },
            JsonValue::Object(members) => {
                let mut out: Vec<(String, JsonValue)> = Vec::new();
                let mut i: usize = 0;
                while i < members.len()
                    invariant
                        i <= members@.len(),
                        decreases_to!(self => members),
                        members_view(out@) == members_view(members@.take(i as int)),
                    decreases members.len() - i,
                {
                    let k = members[i].0.clone();
                    proof {
                        assert(decreases_to!(members => members@));
                        assert(decreases_to!(members@ => members@[i as int]));
                        assert(decreases_to!(members@[i as int] => members@[i as int].1));
                    }
                    let c = members[i].1.duplicate();
                    let ghost before = out@;
                    out.push((k, c));
                    assert(out@.drop_last() =~= before);
                    assert(members@.take(i + 1).drop_last() =~= members@.take(i as int));
                    i += 1;
                }
                assert(members@.take(members@.len() as int) =~= members@);
                JsonValue::Object(out)
            },
        }
    }
}

/// The strings among a sequence of values, in order (`filter_map(as_str)`).
pub open spec fn string_items(a: Seq<JsonView>) -> Seq<Seq<char>>
    decreases a.len(),
{
    if a.len() == 0 {
        Seq::empty()
    } else {
        let p = string_items(a.drop_last());
        match a.last() {
            JsonView::Str(s) => p.push(s),
            _ => p,
        }
    }
}

impl JsonValue {
    /// `get(key)` then `as_str`.
    pub fn get_str(&self, key: &str) -> (r: Option<&str>)
        ensures
            match r {
                Some(s) => jstr(jget(self@, key@)) == Some(s@),
                None => jstr(jget(self@, key@)) is None,
            },
    {
        match self.get(key) {
            Some(v) => v.as_str(),
            None => None,
        }
    }

    /// `get(key)` then `as_u64`.
    pub fn get_u64(&self, key: &str) -> (r: Option<u64>)
        ensures
            r == ju64(jget(self@, key@)),
    {
        match self.get(key) {
            Some(v) => v.as_u64(),
            None => None,
        }
    }

    /// `get(key)` then `as_bool`.
    pub fn get_bool(&self, key: &str) -> (r: Option<bool>)
        ensures
            r == jbool(jget(self@, key@)),
    {
        match self.get(key) {
            Some(v) => v.as_bool(),
            None => None,
        }
    }

    /// `get(key)` then `as_array`.
    pub fn get_array(&self, key: &str) -> (r: Option<&Vec<JsonValue>>)
        ensures
            match r {
                Some(a) => jarray(jget(self@, key@)) == Some(elems_view(a@)),
                None => jarray(jget(self@, key@)) is None,
            },
    {
        match self.get(key) {
            Some(v) => v.as_array(),
            None => None,
        }
    }
}

/// The strings among the values of an array (`filter_map(as_str)`).
pub fn strings_in(items: &Vec<JsonValue>) -> (r: Vec<String>)
    ensures
        r@.map_values(|s: String| s@) == string_items(elems_view(items@)),
{
    proof {
        lemma_array_view(items@);
    }
    let mut out: Vec<String> = Vec::new();
    let mut i: usize = 0;
    while i < items.len()
        invariant
            i <= items@.len(),
            elems_view(items@).len() == items@.len(),
            forall|k: int| 0 <= k < items@.len() ==> #[trigger] elems_view(items@)[k] == json_view(items@[k]),
            out@.map_values(|s: String| s@) == string_items(elems_view(items@).take(i as int)),
        decreases items.len() - i,
    {
        let ghost before = out@;
        proof {
            assert(elems_view(items@).take(i + 1).drop_last() =~= elems_view(items@).take(i as int));
            assert(elems_view(items@).take(i + 1).last() == json_view(items@[i as int]));
        }
        match items[i].as_str() {
            Some(s) => {
                out.push(s.to_owned());
                assert(out@.map_values(|s: String| s@) =~= before.map_values(|s: String| s@).push(s@));
            },
            None => {},
        }
        i = i + 1;
    }
    assert(elems_view(items@).take(items@.len() as int) =~= elems_view(items@));
    out
}

} // verus!
