use vstd::prelude::*;
use vstd::string::StringExecFns;

use crate::error::EsError;

verus! {

/// A JSON document tree, as the search engine sends and receives it.
///
/// Numbers that are not integers are held as their decimal text.
#[derive(Debug)]
pub enum Json {
    Null,
    Boolean(bool),
    I64(i64),
    U64(u64),
    Float(String),
    Str(String),
    Array(Vec<Json>),
    Object(Vec<(String, Json)>),
}

/// Character-wise equality of two strings.
pub fn str_eq(a: &str, b: &str) -> (r: bool)
    ensures
        r == (a@ == b@),
{
    let n = a.unicode_len();
    if n != b.unicode_len() {
        return false;
    }
    let mut i: usize = 0;
    while i < n
        invariant
            n == a@.len(),
            n == b@.len(),
            i <= n,
            forall|k: int| 0 <= k < i ==> a@[k] == b@[k],
        decreases n - i,
    {
        if a.get_char(i) != b.get_char(i) {
            return false;
        }
        i = i + 1;
    }
    assert(a@ =~= b@);
    true
}


/// The first value stored under `key` among `fields[i..]`.
pub open spec fn find_from(fields: Seq<(String, Json)>, key: Seq<char>, i: int) -> Option<Json>
    decreases fields.len() - i,
{
    if i < 0 || i >= fields.len() {
        None
    } else if fields[i].0@ == key {
        Some(fields[i].1)
    } else {
        find_from(fields, key, i + 1)
    }
}

/// The value under `key` of an object; `None` for a missing key or a non-object.
pub open spec fn field_of(j: Json, key: Seq<char>) -> Option<Json> {
    match j {
        Json::Object(fields) => find_from(fields@, key, 0),
        _ => None,
    }
}

/// The boolean under `key`, if there is one.
pub open spec fn bool_field(j: Json, key: Seq<char>) -> Option<bool> {
    match field_of(j, key) {
        Some(Json::Boolean(b)) => Some(b),
        _ => None,
    }
}

/// The string under `key`, if there is one.
pub open spec fn str_field(j: Json, key: Seq<char>) -> Option<Seq<char>> {
    match field_of(j, key) {
        Some(Json::Str(s)) => Some(s@),
        _ => None,
    }
}

/// The integer under `key`, if there is one that fits in an `i64`.
pub open spec fn i64_field(j: Json, key: Seq<char>) -> Option<i64> {
    match field_of(j, key) {
        Some(Json::I64(n)) => Some(n),
        Some(Json::U64(n)) => if n <= i64::MAX as u64 {
            Some(n as i64)
        } else {
            None
        },
        _ => None,
    }
}

/// Whether a value is a JSON number.
pub open spec fn is_number(j: Json) -> bool {
    j is I64 || j is U64 || j is Float
}

impl Json {
    /// Looks up `key` in an object (`None` on any other kind of value).
    pub fn find(&self, key: &str) -> (r: Option<&Json>)
        ensures
            match r {
                Some(v) => field_of(*self, key@) == Some(*v),
                None => field_of(*self, key@) is None,
            },
    {
        match self {
            Json::Object(fields) => {
                let n = fields.len();
                let mut i: usize = 0;
                while i < n
                    invariant
                        n == fields@.len(),
                        i <= n,
                        field_of(*self, key@) == find_from(fields@, key@, i as int),
                    decreases n - i,
                {
                    if str_eq(fields[i].0.as_str(), key) {
                        assert(fields@[i as int].0@ == key@);
                        return Some(&fields[i].1);
                    }
                    i = i + 1;
                }
                None
            },
            _ => None,
        }
    }
}

/// Reads the boolean under `key`.
pub fn get_bool(j: &Json, key: &str) -> (r: Result<bool, EsError>)
    ensures
        match r {
            Ok(b) => bool_field(*j, key@) == Some(b),
            Err(e) => bool_field(*j, key@) is None && e is Decode,
        },
{
    match j.find(key) {
        Some(Json::Boolean(b)) => Ok(*b),
        _ => Err(EsError::Decode(String::from_str(key))),
    }
}

/// Reads the string under `key`.
pub fn get_string(j: &Json, key: &str) -> (r: Result<String, EsError>)
    ensures
        match r {
            Ok(s) => str_field(*j, key@) == Some(s@),
            Err(e) => str_field(*j, key@) is None && e is Decode,
        },
{
    match j.find(key) {
        Some(Json::Str(s)) => Ok(s.clone()),
        _ => Err(EsError::Decode(String::from_str(key))),
    }
}

/// Reads the integer under `key`; an unsigned one above `i64::MAX` is refused.
pub fn get_i64(j: &Json, key: &str) -> (r: Result<i64, EsError>)
    ensures
        match r {
            Ok(n) => i64_field(*j, key@) == Some(n),
            Err(e) => i64_field(*j, key@) is None && e is Decode,
        },
{
    match j.find(key) {
        Some(Json::I64(n)) => Ok(*n),
        Some(Json::U64(n)) => {
            if *n <= i64::MAX as u64 {
                Ok(*n as i64)
            } else {
                Err(EsError::Decode(String::from_str(key)))
            }
        },
        _ => Err(EsError::Decode(String::from_str(key))),
    }
}


/// Replacing the value of an entry leaves the lookup of any other key unchanged.
pub proof fn lemma_find_other_key(s: Seq<(String, Json)>, i: int, e: (String, Json), key: Seq<char>, j: int)
    requires
        0 <= i < s.len(),
        e.0@ == s[i].0@,
        s[i].0@ != key,
    ensures
        find_from(s.update(i, e), key, j) == find_from(s, key, j),
    decreases s.len() - j,
{
    if 0 <= j < s.len() {
        lemma_find_other_key(s, i, e, key, j + 1);
    }
}

/// Moves the first value under `key` out of `fields`, leaving `Null` in its place.
pub fn take_field(fields: &mut Vec<(String, Json)>, key: &str) -> (r: Option<Json>)
    ensures
        r == find_from(old(fields)@, key@, 0),
        final(fields)@.len() == old(fields)@.len(),
        forall|k: Seq<char>| k != key@ ==> find_from(final(fields)@, k, 0) == find_from(old(fields)@, k, 0),
{
    let n = fields.len();
    let mut i: usize = 0;
    while i < n
        invariant
            n == fields@.len(),
            i <= n,
            fields@ == old(fields)@,
            find_from(fields@, key@, 0) == find_from(fields@, key@, i as int),
        decreases n - i,
    {
        if str_eq(fields[i].0.as_str(), key) {
            let ghost before = fields@;
            let (k, v) = fields.remove(i);
            fields.insert(i, (k, Json::Null));
            assert(fields@ =~= before.update(i as int, (k, Json::Null)));
            assert forall|k2: Seq<char>| k2 != key@ implies find_from(fields@, k2, 0) == find_from(before, k2, 0) by {
                lemma_find_other_key(before, i as int, (k, Json::Null), k2, 0);
            }
            return Some(v);
        }
        i = i + 1;
    }
    None
}

} // verus!
