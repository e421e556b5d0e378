//! A plain model of a JSON document, as handed over by the transport layer.
use vstd::prelude::*;

verus! {

/// A JSON value. Numbers keep only what the settings read: a non-negative
/// integer, or the fact that some other number stood there.
#[derive(Debug)]
pub enum JsonValue {
    Null,
    Bool(bool),
    /// A number that is a non-negative integer.
    UInt(u64),
    /// A negative or fractional number.
    OtherNumber,
    Str(String),
    Array(Vec<JsonValue>),
    /// The members of an object, in document order.
    Object(Vec<(String, JsonValue)>),
}

/// The value behind an optional reference.
pub open spec fn deref_opt(m: Option<&JsonValue>) -> Option<JsonValue> {
    match m {
        Some(v) => Some(*v),
        None => None,
    }
}

/// The value of the first member named `key`, if any.
pub open spec fn lookup(members: Seq<(String, JsonValue)>, key: Seq<char>) -> Option<JsonValue>
    decreases members.len(),
{
    if members.len() == 0 {
        None
    } else if members[0].0@ == key {
        Some(members[0].1)
    } else {
        lookup(members.drop_first(), key)
    }
}

/// The member named `key` of an object; nothing for any other value.
pub open spec fn member(v: JsonValue, key: Seq<char>) -> Option<JsonValue> {
    match v {
        JsonValue::Object(members) => lookup(members@, key),
        _ => None,
    }
}

/// Finds the first member named `key`.
pub fn find_member<'a>(members: &'a Vec<(String, JsonValue)>, key: &str) -> (r: Option<&'a JsonValue>)
    ensures
        deref_opt(r) == lookup(members@, key@),
{
    let wanted = key.to_owned();
    let n = members.len();
    let mut i: usize = 0;
    assert(members@.subrange(0, n as int) =~= members@);
    while i < n
        invariant
            n == members@.len(),
            0 <= i <= n,
            wanted@ == key@,
            lookup(members@, key@) == lookup(members@.subrange(i as int, n as int), key@),
        decreases n - i,
    {
        assert(members@.subrange(i as int, n as int).drop_first() =~= members@.subrange(
            i as int + 1,
            n as int,
        ));
        if members[i].0 == wanted {
            return Some(&members[i].1);
        }
        i = i + 1;
    }
    None
}

/// The member named `key` of `v`, when `v` is an object that has one.
pub fn get_member<'a>(v: &'a JsonValue, key: &str) -> (r: Option<&'a JsonValue>)
    ensures
        deref_opt(r) == member(*v, key@),
{
    match v {
        JsonValue::Object(members) => find_member(members, key),
        _ => None,
    }
}

/// The boolean that `v` holds, if it is one.
pub fn as_bool(v: &JsonValue) -> (r: Option<bool>)
    ensures
        r == (match *v {
            JsonValue::Bool(b) => Some(b),
            _ => None,
        }),
{
    match v {
        JsonValue::Bool(b) => Some(*b),
        _ => None,
    }
}

} // verus!
