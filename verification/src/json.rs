//! A JSON document as plain data: what the registry and tool logic read of a parsed
//! response.
use crate::text::text_eq;
use vstd::prelude::*;

verus! {

/// A JSON number the way a JSON parser classifies it.
#[derive(Debug)]
pub enum JsonNumber {
    /// A non-negative integer that fits in `u64`.
    PosInt(u64),
    /// A negative integer that fits in `i64`.
    NegInt(i64),
    /// Any other number, kept as its decimal text.
    Float(String),
}

/// A JSON value; an object keeps its members in order, each key once.
#[derive(Debug)]
pub enum JsonValue {
    Null,
    Bool(bool),
    Number(JsonNumber),
    String(String),
    Array(Vec<JsonValue>),
    Object(Vec<JsonMember>),
}

/// One member of a JSON object.
#[derive(Debug)]
pub struct JsonMember {
    pub key: String,
    pub value: JsonValue,
}

/// The position of the first member named `key` among `members`, or -1.
pub open spec fn member_index(members: Seq<JsonMember>, key: Seq<char>) -> int
    decreases members.len(),
{
    if members.len() == 0 {
        -1
    } else {
        let i = member_index(members.drop_last(), key);
        if i >= 0 {
            i
        } else if members.last().key@ == key {
            members.len() - 1
        } else {
            -1
        }
    }
}

/// The member `key` of an object (`Value::get` with a string key).
pub open spec fn json_get(v: JsonValue, key: Seq<char>) -> Option<JsonValue> {
    match v {
        JsonValue::Object(members) => {
            let i = member_index(members@, key);
            if i >= 0 {
                Some(members@[i].value)
            } else {
                None
            }
        },
        _ => None,
    }
}

/// Whether `v` is the string `t`.
pub open spec fn json_is_string(v: JsonValue, t: Seq<char>) -> bool {
    v matches JsonValue::String(s) && s@ == t
}

/// The text of a string value (`Value::as_str`).
pub open spec fn json_as_str(v: Option<JsonValue>) -> Option<Seq<char>> {
    match v {
        Some(JsonValue::String(s)) => Some(s@),
        _ => None,
    }
}

/// A non-negative integer value (`Value::as_u64`).
pub open spec fn json_as_u64(v: Option<JsonValue>) -> Option<u64> {
    match v {
        Some(JsonValue::Number(JsonNumber::PosInt(n))) => Some(n),
        _ => None,
    }
}

/// A boolean value (`Value::as_bool`).
pub open spec fn json_as_bool(v: Option<JsonValue>) -> Option<bool> {
    match v {
        Some(JsonValue::Bool(b)) => Some(b),
        _ => None,
    }
}

/// The elements of an array value (`Value::as_array`).
pub open spec fn json_as_array(v: Option<JsonValue>) -> Option<Seq<JsonValue>> {
    match v {
        Some(JsonValue::Array(a)) => Some(a@),
        _ => None,
    }
}

proof fn lemma_member_index(members: Seq<JsonMember>, key: Seq<char>)
    ensures
        -1 <= member_index(members, key) < members.len(),
        member_index(members, key) >= 0 ==> members[member_index(members, key)].key@ == key,
        forall|k: int|
            0 <= k < members.len() && (member_index(members, key) < 0 || k < member_index(
                members,
                key,
            )) ==> #[trigger] members[k].key@ != key,
    decreases members.len(),
{
    if members.len() > 0 {
        let p = members.drop_last();
        lemma_member_index(p, key);
        let i = member_index(members, key);
        assert forall|k: int|
            0 <= k < members.len() && (i < 0 || k < i) implies #[trigger] members[k].key@ != key by {
            if k < p.len() {
                assert(p[k] == members[k]);
            }
        }
    }
}

/// The member `key` among `members`.
pub open spec fn members_get(members: Seq<JsonMember>, key: Seq<char>) -> Option<JsonValue> {
    let i = member_index(members, key);
    if i >= 0 {
        Some(members[i].value)
    } else {
        None
    }
}

/// The member `key` among `members`, the first one of that name.
pub fn member_get<'a>(members: &'a Vec<JsonMember>, key: &str) -> (r: Option<&'a JsonValue>)
    ensures
        match members_get(members@, key@) {
            Some(v) => r matches Some(x) && *x == v,
            None => r is None,
        },
{
    proof {
        lemma_member_index(members@, key@);
    }
    let mut i: usize = 0;
    while i < members.len()
        invariant
            i <= members@.len(),
            forall|k: int| 0 <= k < i ==> #[trigger] members@[k].key@ != key@,
        decreases members.len() - i,
    {
        if text_eq(members[i].key.as_str(), key) {
            proof {
                lemma_member_index(members@, key@);
                let mi = member_index(members@, key@);
                if mi >= 0 && mi < i {
                    assert(members@[mi].key@ == key@);
                }
                assert(mi == i);
            }
            return Some(&members[i].value);
        }
        i = i + 1;
    }
    proof {
        lemma_member_index(members@, key@);
        let mi = member_index(members@, key@);
        if mi >= 0 {
            assert(members@[mi].key@ == key@);
        }
    }
    None
}

impl JsonValue {
    /// The member `key` of an object; `None` for other values and missing members.
    pub fn get(&self, key: &str) -> (r: Option<&JsonValue>)
        ensures
            match json_get(*self, key@) {
                Some(v) => r matches Some(x) && *x == v,
                None => r is None,
            },
    {
        match self {
            JsonValue::Object(members) => {
                proof {
                    lemma_member_index(members@, key@);
                }
                let mut i: usize = 0;
                while i < members.len()
                    invariant
                        i <= members@.len(),
                        *self == JsonValue::Object(*members),
                        forall|k: int| 0 <= k < i ==> #[trigger] members@[k].key@ != key@,
                    decreases members.len() - i,
                {
                    if text_eq(members[i].key.as_str(), key) {
                        proof {
                            lemma_member_index(members@, key@);
                            let mi = member_index(members@, key@);
                            if mi < 0 || mi < i {
                                assert(members@[i as int].key@ == key@);
                            }
                            if mi >= 0 && mi < i {
                                assert(members@[mi].key@ == key@);
                            }
                            assert(mi == i);
                        }
                        return Some(&members[i].value);
                    }
                    i = i + 1;
                }
                proof {
                    lemma_member_index(members@, key@);
                    let mi = member_index(members@, key@);
                    if mi >= 0 {
                        assert(members@[mi].key@ == key@);
                    }
                }
                None
            },
            _ => None,
        }
    }

    /// The text of a string value.
    pub fn as_str(&self) -> (r: Option<&str>)
        ensures
            match *self {
                JsonValue::String(s) => r matches Some(x) && x@ == s@,
                _ => r is None,
            },
    {
        match self {
            JsonValue::String(s) => Some(s.as_str()),
            _ => None,
        }
    }

    /// A non-negative integer value.
    pub fn as_u64(&self) -> (r: Option<u64>)
        ensures
            r == json_as_u64(Some(*self)),
    {
        match self {
            JsonValue::Number(JsonNumber::PosInt(n)) => Some(*n),
            _ => None,
        }
    }

    /// A boolean value.
    pub fn as_bool(&self) -> (r: Option<bool>)
        ensures
            r == json_as_bool(Some(*self)),
    {
        match self {
            JsonValue::Bool(b) => Some(*b),
            _ => None,
        }
    }

    /// The elements of an array value.
    pub fn as_array(&self) -> (r: Option<&Vec<JsonValue>>)
        ensures
            match *self {
                JsonValue::Array(a) => r matches Some(x) && x@ == a@,
                _ => r is None,
            },
    {
        match self {
            JsonValue::Array(a) => Some(a),
            _ => None,
        }
    }
}

/// The text under `key`, if that member is a string.
pub fn get_str<'a>(v: &'a JsonValue, key: &str) -> (r: Option<&'a str>)
    ensures
        match json_as_str(json_get(*v, key@)) {
            Some(s) => r matches Some(x) && x@ == s,
            None => r is None,
        },
{
    match v.get(key) {
        Some(x) => x.as_str(),
        None => None,
    }
}

/// The non-negative integer under `key`.
pub fn get_u64(v: &JsonValue, key: &str) -> (r: Option<u64>)
    ensures
        r == json_as_u64(json_get(*v, key@)),
{
    match v.get(key) {
        Some(x) => x.as_u64(),
        None => None,
    }
}

/// The boolean under `key`.
pub fn get_bool(v: &JsonValue, key: &str) -> (r: Option<bool>)
    ensures
        r == json_as_bool(json_get(*v, key@)),
{
    match v.get(key) {
        Some(x) => x.as_bool(),
        None => None,
    }
}

/// The elements of the array under `key`.
pub fn get_array<'a>(v: &'a JsonValue, key: &str) -> (r: Option<&'a Vec<JsonValue>>)
    ensures
        match json_as_array(json_get(*v, key@)) {
            Some(a) => r matches Some(x) && x@ == a,
            None => r is None,
        },
{
    match v.get(key) {
        Some(x) => x.as_array(),
        None => None,
    }
}

/// An empty JSON object.
pub fn empty_object() -> (r: JsonValue)
    ensures
        r matches JsonValue::Object(m) && m@.len() == 0,
{
    JsonValue::Object(Vec::new())
}

/// A JSON object with one boolean member.
pub fn object_with_bool(key: &str, b: bool) -> (r: JsonValue)
    ensures
        json_get(r, key@) == Some(JsonValue::Bool(b)),
        r matches JsonValue::Object(m) && m@.len() == 1 && m@[0].key@ == key@ && m@[0].value
            == JsonValue::Bool(b),
{
    let mut m: Vec<JsonMember> = Vec::new();
    m.push(JsonMember { key: key.to_owned(), value: JsonValue::Bool(b) });
    let r = JsonValue::Object(m);
    proof {
        assert(m@.drop_last().len() == 0);
        assert(member_index(m@.drop_last(), key@) == -1);
        assert(m@.last().key@ == key@);
        assert(member_index(m@, key@) == 0);
    }
    r
}

/// A JSON object with one string member.
pub fn object_with_str(key: &str, s: &str) -> (r: JsonValue)
    ensures
        json_as_str(json_get(r, key@)) == Some(s@),
        r matches JsonValue::Object(m) && m@.len() == 1 && m@[0].key@ == key@ && json_is_string(m@[0].value, s@),
{
    let mut m: Vec<JsonMember> = Vec::new();
    m.push(JsonMember { key: key.to_owned(), value: JsonValue::String(s.to_owned()) });
    let r = JsonValue::Object(m);
    proof {
        assert(m@.drop_last().len() == 0);
        assert(member_index(m@.drop_last(), key@) == -1);
        assert(m@.last().key@ == key@);
        assert(member_index(m@, key@) == 0);
    }
    r
}

} // verus!
