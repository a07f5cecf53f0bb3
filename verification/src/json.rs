//! A JSON document model for action, event and backup metadata.
//!
//! Metadata travels between the UI, the audit store and the policy code as
//! JSON.  The library holds it as plain values so that every rule that reads
//! metadata (a PID, a settings page, a backup flag) can be verified.
use vstd::prelude::*;
use crate::text::{owned, str_eq};

verus! {

/// A JSON number: a non-negative integer, a negative integer, or a
/// floating-point number kept as its IEEE-754 bit pattern.
#[derive(Debug, Clone, Copy, PartialEq, Eq)]
pub enum JsonNumber {
    PosInt(u64),
    NegInt(i64),
    FloatBits(u64),
}

/// One `"key": value` member of a JSON object.
#[derive(Debug, PartialEq)]
pub struct JsonMember {
    pub key: String,
    pub value: JsonValue,
}

/// A JSON value.  Object members are kept in order; a lookup finds the first
/// member with the requested key.
#[derive(Debug, PartialEq)]
pub enum JsonValue {
    Null,
    Bool(bool),
    Number(JsonNumber),
    Str(String),
    Array(Vec<JsonValue>),
    Object(Vec<JsonMember>),
}

/// Index of the first member named `key` at or after `from`, or `m.len()`.
pub open spec fn find_key(m: Seq<JsonMember>, key: Seq<char>, from: int) -> int
    decreases m.len() - from,
{
    if from < 0 || from >= m.len() {
        m.len() as int
    } else if m[from].key@ == key {
        from
    } else {
        find_key(m, key, from + 1)
    }
}

pub proof fn lemma_find_key_bounds(m: Seq<JsonMember>, key: Seq<char>, from: int)
    requires
        0 <= from <= m.len(),
    ensures
        from <= find_key(m, key, from) <= m.len(),
        find_key(m, key, from) < m.len() ==> m[find_key(m, key, from)].key@ == key,
        forall|k: int| from <= k < find_key(m, key, from) ==> m[k].key@ != key,
    decreases m.len() - from,
{
    if from < m.len() && m[from].key@ != key {
        lemma_find_key_bounds(m, key, from + 1);
    }
}

/// `find_key` is the first index whose key matches, or the length.
pub proof fn lemma_find_key_is(m: Seq<JsonMember>, key: Seq<char>, i: int)
    requires
        0 <= i <= m.len(),
        forall|j: int| 0 <= j < i ==> m[j].key@ != key,
        i < m.len() ==> m[i].key@ == key,
    ensures
        find_key(m, key, 0) == i,
{
    lemma_find_key_bounds(m, key, 0);
}

/// The value of the first member named `key` in a list of members.
pub open spec fn members_get(m: Seq<JsonMember>, key: Seq<char>) -> Option<JsonValue> {
    let i = find_key(m, key, 0);
    if i < m.len() {
        Some(m[i].value)
    } else {
        None
    }
}

/// The members after `key` is set to `value`: the first member with that key
/// gets the new value, or a new member is appended.
pub open spec fn members_insert(m: Seq<JsonMember>, key: String, value: JsonValue) -> Seq<JsonMember> {
    let i = find_key(m, key@, 0);
    if i < m.len() {
        m.update(i, JsonMember { key: m[i].key, value })
    } else {
        m.push(JsonMember { key, value })
    }
}

/// Reading a member after setting one: the key that was set gives the new
/// value, every other key gives what it gave before.
pub proof fn lemma_members_insert_get(m: Seq<JsonMember>, key: String, value: JsonValue, k: Seq<char>)
    ensures
        members_get(members_insert(m, key, value), k) == if k == key@ {
            Some(value)
        } else {
            members_get(m, k)
        },
{
    let i = find_key(m, key@, 0);
    lemma_find_key_bounds(m, key@, 0);
    let f = find_key(m, k, 0);
    lemma_find_key_bounds(m, k, 0);
    let n = members_insert(m, key, value);
    if i < m.len() {
        assert forall|j: int| 0 <= j < n.len() implies n[j].key@ == m[j].key@ by {}
        lemma_find_key_is(n, k, f);
        if k == key@ {
            assert(f == i);
        } else if f < m.len() {
            assert(f != i);
        }
    } else {
        if k == key@ {
            lemma_find_key_is(n, k, m.len() as int);
        } else if f < m.len() {
            lemma_find_key_is(n, k, f);
        } else {
            lemma_find_key_is(n, k, n.len() as int);
        }
    }
}

impl JsonValue {
    /// `Value::get` with a string key: the member of an object, `None` otherwise.
    pub open spec fn spec_get(self, key: Seq<char>) -> Option<JsonValue> {
        match self {
            JsonValue::Object(m) => members_get(m@, key),
            _ => None,
        }
    }

    /// `Value::as_u64`.
    pub open spec fn spec_as_u64(self) -> Option<u64> {
        match self {
            JsonValue::Number(JsonNumber::PosInt(n)) => Some(n),
            _ => None,
        }
    }

    /// `Value::as_bool`.
    pub open spec fn spec_as_bool(self) -> Option<bool> {
        match self {
            JsonValue::Bool(b) => Some(b),
            _ => None,
        }
    }

    /// `Value::as_str`, as a character sequence.
    pub open spec fn spec_as_str(self) -> Option<Seq<char>> {
        match self {
            JsonValue::Str(s) => Some(s@),
            _ => None,
        }
    }

    pub open spec fn is_object(self) -> bool {
        self is Object
    }

    /// The member named `key`, if this is an object that has one.
    pub fn get(&self, key: &str) -> (r: Option<&JsonValue>)
        ensures
            r matches Some(v) ==> self.spec_get(key@) == Some(*v),
            r is None ==> self.spec_get(key@) is None,
    {
        match self {
            JsonValue::Object(m) => {
                let n = m.len();
                let mut i: usize = 0;
                while i < n
                    invariant
                        n == m@.len(),
                        i <= n,
                        self.spec_get(key@) == members_get(m@, key@),
                        find_key(m@, key@, 0) == find_key(m@, key@, i as int),
                    decreases n - i,
                {
                    if str_eq(m[i].key.as_str(), key) {
                        assert(find_key(m@, key@, i as int) == i);
                        return Some(&m[i].value);
                    }
                    assert(find_key(m@, key@, i as int) == find_key(m@, key@, i + 1));
                    i = i + 1;
                }
                None
            },
            _ => None,
        }
    }

    pub fn as_u64(&self) -> (r: Option<u64>)
        ensures
            r == self.spec_as_u64(),
    {
        match self {
            JsonValue::Number(JsonNumber::PosInt(n)) => Some(*n),
            _ => None,
        }
    }

    pub fn as_bool(&self) -> (r: Option<bool>)
        ensures
            r == self.spec_as_bool(),
    {
        match self {
            JsonValue::Bool(b) => Some(*b),
            _ => None,
        }
    }

    pub fn as_str(&self) -> (r: Option<&str>)
        ensures
            r matches Some(s) ==> self.spec_as_str() == Some(s@),
            r is None ==> self.spec_as_str() is None,
    {
        match self {
            JsonValue::Str(s) => Some(s.as_str()),
            _ => None,
        }
    }

    /// An empty JSON object.
    pub fn empty_object() -> (r: JsonValue)
        ensures
            r matches JsonValue::Object(m) && m@.len() == 0,
    {
        JsonValue::Object(Vec::new())
    }
}

/// Two JSON values hold the same data: the same scalars, and arrays and
/// objects whose items (and member keys) hold the same data, in order.
pub open spec fn same_json(a: JsonValue, b: JsonValue) -> bool
    decreases a,
{
    match a {
        JsonValue::Array(x) => match b {
            JsonValue::Array(y) => same_items(x@, y@),
            _ => false,
        },
        JsonValue::Object(x) => match b {
            JsonValue::Object(y) => same_members(x@, y@),
            _ => false,
        },
        JsonValue::Str(s) => b matches JsonValue::Str(t) && s@ == t@,
        _ => a == b,
    }
}

/// Two item lists of the same length whose items hold the same data.
pub open spec fn same_items(x: Seq<JsonValue>, y: Seq<JsonValue>) -> bool
    decreases x,
{
    if x.len() == 0 {
        y.len() == 0
    } else {
        y.len() == x.len() && same_items(x.drop_last(), y.drop_last()) && same_json(x.last(), y.last())
    }
}

/// Two member lists of the same length, with the same keys, whose values
/// hold the same data.
pub open spec fn same_members(x: Seq<JsonMember>, y: Seq<JsonMember>) -> bool
    decreases x,
{
    if x.len() == 0 {
        y.len() == 0
    } else {
        &&& y.len() == x.len()
        &&& same_members(x.drop_last(), y.drop_last())
        &&& x.last().key@ == y.last().key@
        &&& same_json(x.last().value, y.last().value)
    }
}

/// A copy of a JSON value, member by member and item by item.
pub fn clone_json(v: &JsonValue) -> (r: JsonValue)
    ensures
        same_json(*v, r),
    decreases v,
{
    match v {
        JsonValue::Null => JsonValue::Null,
        JsonValue::Bool(b) => JsonValue::Bool(*b),
        JsonValue::Number(n) => JsonValue::Number(*n),
        JsonValue::Str(s) => JsonValue::Str(s.clone()),
        JsonValue::Array(items) => {
            let mut out: Vec<JsonValue> = Vec::new();
            let n = items.len();
            let mut i: usize = 0;
            while i < n
                invariant
                    n == items@.len(),
                    i <= n,
                    *v == JsonValue::Array(*items),
                    same_items(items@.take(i as int), out@),
                decreases n - i,
            {
                proof {
                    vstd::std_specs::vec::axiom_vec_index_decreases(*items, i as int);
                    assert(decreases_to!(*v => v->Array_0));
                    assert(decreases_to!(v->Array_0 => v->Array_0[i as int]));
                }
                let ghost prev = out@;
                let item = clone_json(&items[i]);
                out.push(item);
                proof {
                    assert(items@.take(i + 1).drop_last() =~= items@.take(i as int));
                    assert(out@.drop_last() =~= prev);
                }
                i = i + 1;
            }
            assert(items@.take(n as int) =~= items@);
            JsonValue::Array(out)
        },
        JsonValue::Object(members) => {
            let mut out: Vec<JsonMember> = Vec::new();
            let n = members.len();
            let mut i: usize = 0;
            while i < n
                invariant
                    n == members@.len(),
                    i <= n,
                    *v == JsonValue::Object(*members),
                    same_members(members@.take(i as int), out@),
                decreases n - i,
            {
                proof {
                    vstd::std_specs::vec::axiom_vec_index_decreases(*members, i as int);
                    assert(decreases_to!(*v => v->Object_0));
                    assert(decreases_to!(v->Object_0 => v->Object_0[i as int]));
                    assert(decreases_to!(members[i as int] => members[i as int].value));
                }
                let ghost prev = out@;
                let value = clone_json(&members[i].value);
                out.push(JsonMember { key: members[i].key.clone(), value });
                proof {
                    assert(members@.take(i + 1).drop_last() =~= members@.take(i as int));
                    assert(out@.drop_last() =~= prev);
                }
                i = i + 1;
            }
            assert(members@.take(n as int) =~= members@);
            JsonValue::Object(out)
        },
    }
}

impl Clone for JsonValue {
    fn clone(&self) -> (r: Self)
        ensures
            same_json(*self, r),
    {
        clone_json(self)
    }
}

impl Clone for JsonMember {
    fn clone(&self) -> (r: Self)
        ensures
            r.key@ == self.key@,
            same_json(self.value, r.value),
    {
        JsonMember { key: self.key.clone(), value: clone_json(&self.value) }
    }
}

/// Sets `key` to `value` in a member list (`Map::insert`).
pub fn members_insert_exec(m: &mut Vec<JsonMember>, key: String, value: JsonValue)
    ensures
        final(m)@ == members_insert(old(m)@, key, value),
{
    let n = m.len();
    let mut i: usize = 0;
    while i < n
        invariant
            n == m@.len(),
            i <= n,
            m@ == old(m)@,
            find_key(m@, key@, 0) == find_key(m@, key@, i as int),
        decreases n - i,
    {
        if str_eq(m[i].key.as_str(), key.as_str()) {
            assert(find_key(m@, key@, i as int) == i);
            let k = m[i].key.clone();
            m.set(i, JsonMember { key: k, value });
            return;
        }
        assert(find_key(m@, key@, i as int) == find_key(m@, key@, i + 1));
        i = i + 1;
    }
    assert(find_key(m@, key@, n as int) == n);
    m.push(JsonMember { key, value });
}

/// A member whose key is a string literal.
pub fn member(key: &str, value: JsonValue) -> (r: JsonMember)
    ensures
        r.key@ == key@,
        r.value == value,
{
    JsonMember { key: owned(key), value }
}

/// A JSON string value.
pub fn json_str(s: &str) -> (r: JsonValue)
    ensures
        r matches JsonValue::Str(t) && t@ == s@,
{
    JsonValue::Str(owned(s))
}

/// `null` for `None`, a JSON string otherwise.
pub fn json_opt_str(s: &Option<String>) -> (r: JsonValue)
    ensures
        s is None ==> r is Null,
        s matches Some(v) ==> (r matches JsonValue::Str(t) && t@ == v@),
{
    match s {
        Some(v) => JsonValue::Str(v.clone()),
        None => JsonValue::Null,
    }
}

} // verus!
