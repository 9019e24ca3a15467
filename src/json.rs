//! The tree of values that issues and their events are written as.
use vstd::prelude::*;
use vstd::string::StringExecFns;

verus! {

/// A value of the persisted tree: text, a flag, a list, or an object whose
/// members are kept in order. An object may hold a key more than once; every
/// reading of it (`lookup`, `get`) takes the first member with that key.
#[derive(Debug)]
pub enum Json {
    Str(String),
    Boolean(bool),
    Array(Vec<Json>),
    Object(Vec<Member>),
}

/// One named member of an object.
#[derive(Debug)]
pub struct Member {
    pub key: String,
    pub value: Json,
}

/// The value of the first member of `ms` at or after `i` whose key is `key`.
pub open spec fn lookup_from(ms: Seq<Member>, key: Seq<char>, i: int) -> Option<Json>
    decreases ms.len() - i,
{
    if i < 0 || i >= ms.len() {
        None
    } else if ms[i].key@ == key {
        Some(ms[i].value)
    } else {
        lookup_from(ms, key, i + 1)
    }
}

/// The value of the first member of `ms` whose key is `key`.
pub open spec fn lookup(ms: Seq<Member>, key: Seq<char>) -> Option<Json> {
    lookup_from(ms, key, 0)
}

/// The text held under `key`, if that member is present and is text.
pub open spec fn str_at(ms: Seq<Member>, key: Seq<char>) -> Option<Seq<char>> {
    match lookup(ms, key) {
        Some(Json::Str(s)) => Some(s@),
        _ => None,
    }
}

/// The flag held under `key`, if that member is present and is a flag.
pub open spec fn bool_at(ms: Seq<Member>, key: Seq<char>) -> Option<bool> {
    match lookup(ms, key) {
        Some(Json::Boolean(b)) => Some(b),
        _ => None,
    }
}

/// `m` is the member `key` holding the text `val`.
pub open spec fn is_str_member(m: Member, key: Seq<char>, val: Seq<char>) -> bool {
    &&& m.key@ == key
    &&& (m.value matches Json::Str(s) && s@ == val)
}

/// The first member of `ms` whose key is `key`.
pub fn get<'a>(ms: &'a Vec<Member>, key: &str) -> (r: Option<&'a Json>)
    ensures
        match r {
            Some(j) => lookup(ms@, key@) == Some(*j),
            None => lookup(ms@, key@) is None,
        },
{
    let k = String::from_str(key);
    let mut i: usize = 0;
    while i < ms.len()
        invariant
            i <= ms@.len(),
            k@ == key@,
            lookup(ms@, key@) == lookup_from(ms@, key@, i as int),
        decreases ms@.len() - i,
    {
        if ms[i].key == k {
            return Some(&ms[i].value);
        }
        i = i + 1;
    }
    None
}

/// The text held under `key`, copied.
pub fn get_string_for_key(ms: &Vec<Member>, key: &str) -> (r: Option<String>)
    ensures
        match r {
            Some(s) => str_at(ms@, key@) == Some(s@),
            None => str_at(ms@, key@) is None,
        },
{
    match get(ms, key) {
        Some(Json::Str(s)) => Some(s.clone()),
        _ => None,
    }
}

/// The flag held under `key`.
pub fn get_bool_for_key(ms: &Vec<Member>, key: &str) -> (r: Option<bool>)
    ensures
        r == bool_at(ms@, key@),
{
    match get(ms, key) {
        Some(Json::Boolean(b)) => Some(*b),
        _ => None,
    }
}

/// Whether `s` is the text `lit`.
pub fn text_is(s: &String, lit: &str) -> (r: bool)
    ensures
        r == (s@ == lit@),
{
    *s == String::from_str(lit)
}

/// A member holding text.
pub fn str_member(key: &str, val: String) -> (r: Member)
    ensures
        is_str_member(r, key@, val@),
{
    Member { key: String::from_str(key), value: Json::Str(val) }
}

} // verus!
