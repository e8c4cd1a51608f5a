//! A parsed structured document (JSON or TOML), as the library reads and
//! builds it.

use vstd::prelude::*;

verus! {

/// One node of a parsed document.
///
/// Numbers the library reads are non-negative integers; any other scalar
/// (a negative or fractional number, a date) is kept as `Other`.
pub enum Value {
    Null,
    Bool(bool),
    Number(u64),
    Str(String),
    Array(Vec<Value>),
    Object(Vec<(String, Value)>),
    Other,
}

/// The value stored under `key` in a list of object members: the first
/// member with that name.
pub open spec fn member(fields: Seq<(String, Value)>, key: Seq<char>) -> Option<Value>
    decreases fields.len(),
{
    if fields.len() == 0 {
        None
    } else if fields[0].0@ == key {
        Some(fields[0].1)
    } else {
        member(fields.drop_first(), key)
    }
}

/// The value under `key` when `v` is an object.
pub open spec fn field(v: Value, key: Seq<char>) -> Option<Value> {
    match v {
        Value::Object(fields) => member(fields@, key),
        _ => None,
    }
}

/// Appending a member leaves earlier lookups as they were and makes the new
/// member visible under its name when no earlier member had that name.
pub proof fn lemma_member_push(fs: Seq<(String, Value)>, e: (String, Value), key: Seq<char>)
    ensures
        member(fs.push(e), key) == match member(fs, key) {
            Some(x) => Some(x),
            None => if e.0@ == key {
                Some(e.1)
            } else {
                None
            },
        },
    decreases fs.len(),
{
    let fe = fs.push(e);
    if fs.len() > 0 {
        assert(fe[0] == fs[0]);
        assert(fe.drop_first() == fs.drop_first().push(e));
        lemma_member_push(fs.drop_first(), e, key);
        if fs[0].0@ == key {
            assert(member(fe, key) == Some(fs[0].1));
            assert(member(fs, key) == Some(fs[0].1));
        } else {
            assert(member(fe, key) == member(fe.drop_first(), key));
            assert(member(fs, key) == member(fs.drop_first(), key));
        }
    } else {
        assert(fe[0] == e);
        assert(fe.drop_first() == Seq::<(String, Value)>::empty());
        assert(member(fs, key) is None);
        assert(member(fe.drop_first(), key) is None);
    }
}

/// Replacing the first member named `e.0` changes the lookup of that name
/// only.
pub proof fn lemma_member_update(fs: Seq<(String, Value)>, i: int, e: (String, Value), key: Seq<char>)
    requires
        0 <= i < fs.len(),
        fs[i].0@ == e.0@,
        forall|j: int| 0 <= j < i ==> (#[trigger] fs[j]).0@ != e.0@,
    ensures
        member(fs.update(i, e), key) == if key == e.0@ {
            Some(e.1)
        } else {
            member(fs, key)
        },
        key == e.0@ ==> member(fs, key) == Some(fs[i].1),
    decreases fs.len(),
{
    if i == 0 {
        assert(fs.update(0, e).drop_first() == fs.drop_first());
    } else {
        assert(fs.update(i, e).drop_first() == fs.drop_first().update(i - 1, e));
        assert forall|j: int| 0 <= j < i - 1 implies (#[trigger] fs.drop_first()[j]).0@ != e.0@ by {
            assert(fs.drop_first()[j] == fs[j + 1]);
        }
        assert(fs[0].0@ != e.0@);
        lemma_member_update(fs.drop_first(), i - 1, e, key);
    }
}

/// No member named `key` means no value under it.
pub proof fn lemma_member_absent(fs: Seq<(String, Value)>, key: Seq<char>)
    requires
        forall|j: int| 0 <= j < fs.len() ==> (#[trigger] fs[j]).0@ != key,
    ensures
        member(fs, key) is None,
    decreases fs.len(),
{
    if fs.len() > 0 {
        assert forall|j: int| 0 <= j < fs.len() - 1 implies (#[trigger] fs.drop_first()[j]).0@ != key by {
            assert(fs.drop_first()[j] == fs[j + 1]);
        }
        lemma_member_absent(fs.drop_first(), key);
    }
}

/// The string a member holds, if it is one.
pub open spec fn as_str(v: Option<Value>) -> Option<String> {
    match v {
        Some(Value::Str(s)) => Some(s),
        _ => None,
    }
}

/// The non-negative integer a member holds, if it is one.
pub open spec fn as_u64(v: Option<Value>) -> Option<u64> {
    match v {
        Some(Value::Number(n)) => Some(n),
        _ => None,
    }
}

/// The boolean a member holds, if it is one.
pub open spec fn as_bool(v: Option<Value>) -> Option<bool> {
    match v {
        Some(Value::Bool(b)) => Some(b),
        _ => None,
    }
}

/// A member that is missing or null.
pub open spec fn is_absent(v: Option<Value>) -> bool {
    match v {
        None => true,
        Some(Value::Null) => true,
        _ => false,
    }
}

/// An optional string member: missing or null reads as `Some(None)`, a
/// string as `Some(Some(s))`; anything else does not read (`None`).
pub open spec fn as_opt_str(v: Option<Value>) -> Option<Option<String>> {
    match v {
        None => Some(None),
        Some(Value::Null) => Some(None),
        Some(Value::Str(s)) => Some(Some(s)),
        _ => None,
    }
}

/// Character-wise equality of two string slices.
pub fn str_eq(a: &str, b: &str) -> (r: bool)
    ensures
        r == (a@ == b@),
{
    let n = a.unicode_len();
    if n != b.unicode_len() {
        return false;
    }
    let mut i: usize = 0;
    while i < n
        invariant
            n == a@.len(),
            n == b@.len(),
            i <= n,
            a@.subrange(0, i as int) == b@.subrange(0, i as int),
        decreases n - i,
    {
        if a.get_char(i) != b.get_char(i) {
            return false;
        }
        assert(a@.subrange(0, i + 1) == a@.subrange(0, i as int).push(a@[i as int]));
        assert(b@.subrange(0, i + 1) == b@.subrange(0, i as int).push(b@[i as int]));
        i = i + 1;
    }
    assert(a@ == a@.subrange(0, n as int));
    assert(b@ == b@.subrange(0, n as int));
    true
}

impl Value {
    /// The member named `key` of this object; `None` for a missing member or
    /// for a value that is no object.
    pub fn get<'a>(&'a self, key: &str) -> (r: Option<&'a Value>)
        ensures
            match r {
                Some(x) => field(*self, key@) == Some(*x),
                None => field(*self, key@) is None,
            },
    {
        match self {
            Value::Object(fields) => {
                let mut i: usize = 0;
                assert(fields@.subrange(0, fields@.len() as int) == fields@);
                while i < fields.len()
                    invariant
                        i <= fields@.len(),
                        field(*self, key@) == member(fields@, key@),
                        member(fields@, key@) == member(fields@.subrange(i as int, fields@.len() as int), key@),
                    decreases fields.len() - i,
                {
                    let ghost rest = fields@.subrange(i as int, fields@.len() as int);
                    assert(rest.drop_first() == fields@.subrange(i + 1, fields@.len() as int));
                    assert(rest[0] == fields@[i as int]);
                    if str_eq(fields[i].0.as_str(), key) {
                        assert(fields@[i as int].0@ == key@);
                        assert(member(rest, key@) == Some(fields@[i as int].1));
                        return Some(&fields[i].1);
                    }
                    i = i + 1;
                }
                None
            },
            _ => None,
        }
    }

    /// The string held by member `key`.
    pub fn get_str(&self, key: &str) -> (r: Option<String>)
        ensures
            r == as_str(field(*self, key@)),
    {
        match self.get(key) {
            Some(Value::Str(s)) => Some(s.clone()),
            _ => None,
        }
    }

    /// The non-negative integer held by member `key`.
    pub fn get_u64(&self, key: &str) -> (r: Option<u64>)
        ensures
            r == as_u64(field(*self, key@)),
    {
        match self.get(key) {
            Some(Value::Number(n)) => Some(*n),
            _ => None,
        }
    }

    /// The boolean held by member `key`.
    pub fn get_bool(&self, key: &str) -> (r: Option<bool>)
        ensures
            r == as_bool(field(*self, key@)),
    {
        match self.get(key) {
            Some(Value::Bool(b)) => Some(*b),
            _ => None,
        }
    }

    /// Whether member `key` is missing or null.
    pub fn lacks(&self, key: &str) -> (r: bool)
        ensures
            r == is_absent(field(*self, key@)),
    {
        match self.get(key) {
            None => true,
            Some(Value::Null) => true,
            _ => false,
        }
    }

    /// An optional string member; see `as_opt_str`.
    pub fn get_opt_str(&self, key: &str) -> (r: Option<Option<String>>)
        ensures
            r == as_opt_str(field(*self, key@)),
    {
        match self.get(key) {
            None => Some(None),
            Some(Value::Null) => Some(None),
            Some(Value::Str(s)) => Some(Some(s.clone())),
            _ => None,
        }
    }

    /// Whether this value is an object.
    pub fn is_object(&self) -> (r: bool)
        ensures
            r == (*self is Object),
    {
        match self {
            Value::Object(_) => true,
            _ => false,
        }
    }
}

} // verus!
