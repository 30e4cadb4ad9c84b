//! A JSON document as plain values, and the lookups the updater makes in one.
//!
//! Objects keep their members in order; a lookup by key returns the first
//! member with that key, as a map with unique keys would return its only one.

use vstd::prelude::*;

verus! {

/// A JSON value. Numbers are kept as the integer that reads them: a
/// non-negative integer, a negative integer, or a number with a fraction or an
/// exponent, of which the updater never reads the value.
pub enum JsonValue {
    Null,
    Bool(bool),
    PosInt(u64),
    NegInt(i64),
    Float,
    Str(String),
    Array(Vec<JsonValue>),
    Object(Vec<JsonMember>),
}

/// One member of a JSON object.
pub struct JsonMember {
    pub key: String,
    pub value: JsonValue,
}

/// The value of the first member named `key` among `members`.
pub open spec fn lookup(members: Seq<JsonMember>, key: Seq<char>) -> Option<JsonValue>
    decreases members.len(),
{
    if members.len() == 0 {
        None
    } else if members[0].key@ == key {
        Some(members[0].value)
    } else {
        lookup(members.drop_first(), key)
    }
}

/// `value.get(key)`: the member `key` of an object; nothing for other values.
pub open spec fn get_key(value: JsonValue, key: Seq<char>) -> Option<JsonValue> {
    match value {
        JsonValue::Object(members) => lookup(members@, key),
        _ => None,
    }
}

/// `value.get(index)`: the element `index` of an array; nothing for other values.
pub open spec fn get_index(value: JsonValue, index: int) -> Option<JsonValue> {
    match value {
        JsonValue::Array(items) => if 0 <= index < items@.len() {
            Some(items@[index])
        } else {
            None
        },
        _ => None,
    }
}

/// `value.as_u64()`: the value of a non-negative integer.
pub open spec fn as_u64(value: Option<JsonValue>) -> Option<u64> {
    match value {
        Some(JsonValue::PosInt(n)) => Some(n),
        _ => None,
    }
}

/// `value.as_str()`: the text of a string.
pub open spec fn as_text(value: Option<JsonValue>) -> Option<Seq<char>> {
    match value {
        Some(JsonValue::Str(s)) => Some(s@),
        _ => None,
    }
}

/// `value.as_array()`: the elements of an array.
pub open spec fn as_items(value: Option<JsonValue>) -> Option<Seq<JsonValue>> {
    match value {
        Some(JsonValue::Array(items)) => Some(items@),
        _ => None,
    }
}

/// The member `key` of `value`, if `value` is an object that has one.
pub fn member<'a>(value: &'a JsonValue, key: &str) -> (r: Option<&'a JsonValue>)
    ensures
        match r {
            Some(v) => get_key(*value, key@) == Some(*v),
            None => get_key(*value, key@) is None,
        },
{
    match value {
        JsonValue::Object(members) => {
            let k = String::from_str(key);
            let mut i: usize = 0;
            assert(members@.skip(0) =~= members@);
            while i < members.len()
                invariant
                    *value == JsonValue::Object(*members),
                    k@ == key@,
                    i <= members@.len(),
                    lookup(members@, key@) == lookup(members@.skip(i as int), key@),
                decreases members@.len() - i,
            {
                if members[i].key == k {
                    assert(members@.skip(i as int)[0] == members@[i as int]);
                    return Some(&members[i].value);
                }
                assert(members@.skip(i as int).drop_first() =~= members@.skip(i + 1));
                i = i + 1;
            }
            None
        },
        _ => None,
    }
}

/// The element `index` of `value`, if `value` is an array that long.
pub fn element(value: &JsonValue, index: usize) -> (r: Option<&JsonValue>)
    ensures
        match r {
            Some(v) => get_index(*value, index as int) == Some(*v),
            None => get_index(*value, index as int) is None,
        },
{
    match value {
        JsonValue::Array(items) => if index < items.len() {
            Some(&items[index])
        } else {
            None
        },
        _ => None,
    }
}

/// `value.get(key).and_then(Value::as_u64)`.
pub fn u64_member(value: &JsonValue, key: &str) -> (r: Option<u64>)
    ensures
        r == as_u64(get_key(*value, key@)),
{
    match member(value, key) {
        Some(JsonValue::PosInt(n)) => Some(*n),
        _ => None,
    }
}

/// `value.get(key).and_then(Value::as_str)`.
pub fn str_member<'a>(value: &'a JsonValue, key: &str) -> (r: Option<&'a String>)
    ensures
        match r {
            Some(s) => as_text(get_key(*value, key@)) == Some(s@),
            None => as_text(get_key(*value, key@)) is None,
        },
{
    match member(value, key) {
        Some(JsonValue::Str(s)) => Some(s),
        _ => None,
    }
}

/// `value.get(key).and_then(Value::as_array)`.
pub fn array_member<'a>(value: &'a JsonValue, key: &str) -> (r: Option<&'a Vec<JsonValue>>)
    ensures
        match r {
            Some(items) => as_items(get_key(*value, key@)) == Some(items@),
            None => as_items(get_key(*value, key@)) is None,
        },
{
    match member(value, key) {
        Some(JsonValue::Array(items)) => Some(items),
        _ => None,
    }
}

/// `value.as_array()`.
pub fn items_of(value: &JsonValue) -> (r: Option<&Vec<JsonValue>>)
    ensures
        match r {
            Some(items) => as_items(Some(*value)) == Some(items@),
            None => as_items(Some(*value)) is None,
        },
{
    match value {
        JsonValue::Array(items) => Some(items),
        _ => None,
    }
}

} // verus!
