use vstd::prelude::*;
use crate::units::Fixed;

verus! {

/// A dynamically typed parameter value, as produced by the authoring layer.
///
/// An object is a list of `(key, value)` entries; a lookup finds the first
/// entry whose key matches.
pub enum JsParamValue {
    Number(Fixed),
    Text(String),
    Object(Vec<(String, JsParamValue)>),
    Array(Vec<JsParamValue>),
}

/// A content node, seen through its parameter bag.
pub struct JsContent {
    pub params: Vec<(String, JsParamValue)>,
}

/// The value under `key` in `entries`: that of the first entry with that key.
pub open spec fn entry_for(entries: Seq<(String, JsParamValue)>, key: Seq<char>) -> Option<
    JsParamValue,
>
    decreases entries.len(),
{
    if entries.len() == 0 {
        None
    } else if entries[0].0@ == key {
        Some(entries[0].1)
    } else {
        entry_for(entries.drop_first(), key)
    }
}

/// The entries of a value that is an object.
pub open spec fn object_entries(v: Option<JsParamValue>) -> Option<Seq<(String, JsParamValue)>> {
    match v {
        Some(JsParamValue::Object(o)) => Some(o@),
        _ => None,
    }
}

/// The value under `key` in an object, if there is an object.
pub open spec fn member(obj: Option<Seq<(String, JsParamValue)>>, key: Seq<char>) -> Option<
    JsParamValue,
> {
    match obj {
        Some(entries) => entry_for(entries, key),
        None => None,
    }
}

/// The number a value holds, or `default` where there is none or it is no number.
pub open spec fn number_or(v: Option<JsParamValue>, default: Fixed) -> Fixed {
    match v {
        Some(JsParamValue::Number(n)) => n,
        _ => default,
    }
}

/// The text a value holds, if it is text.
pub open spec fn text_of(v: Option<JsParamValue>) -> Option<Seq<char>> {
    match v {
        Some(JsParamValue::Text(s)) => Some(s@),
        _ => None,
    }
}

/// A looked-up value, followed through its reference.
pub open spec fn deref_value(v: Option<&JsParamValue>) -> Option<JsParamValue> {
    match v {
        Some(x) => Some(*x),
        None => None,
    }
}

/// Whether two strings hold the same characters.
pub fn text_eq(a: &str, b: &str) -> (r: bool)
    ensures
        r == (a@ == b@),
{
    let n = a.unicode_len();
    if n != b.unicode_len() {
        return false;
    }
    let mut i: usize = 0;
    while i < n
        invariant
            n == a@.len(),
            n == b@.len(),
            i <= n,
            forall|j: int| 0 <= j < i ==> a@[j] == b@[j],
        decreases n - i,
    {
        if a.get_char(i) != b.get_char(i) {
            return false;
        }
        i += 1;
    }
    assert(a@ =~= b@);
    true
}

/// Looks `key` up in an object's entries.
pub fn find_entry<'a>(entries: &'a Vec<(String, JsParamValue)>, key: &str) -> (r: Option<
    &'a JsParamValue,
>)
    ensures
        deref_value(r) == entry_for(entries@, key@),
{
    let mut i: usize = 0;
    assert(entries@.skip(0) =~= entries@);
    while i < entries.len()
        invariant
            i <= entries@.len(),
            entry_for(entries@, key@) == entry_for(entries@.skip(i as int), key@),
        decreases entries@.len() - i,
    {
        assert(entries@.skip(i as int)[0] == entries@[i as int]);
        if text_eq(entries[i].0.as_str(), key) {
            return Some(&entries[i].1);
        }
        assert(entries@.skip(i as int).drop_first() =~= entries@.skip(i + 1));
        i += 1;
    }
    None
}

/// The number under `key`, or `default` where it is absent or no number.
pub fn read_number(entries: &Vec<(String, JsParamValue)>, key: &str, default: Fixed) -> (r: Fixed)
    ensures
        r == number_or(entry_for(entries@, key@), default),
{
    match find_entry(entries, key) {
        Some(JsParamValue::Number(n)) => *n,
        _ => default,
    }
}

/// The text under `key`, where it is present and text.
pub fn read_text<'a>(entries: &'a Vec<(String, JsParamValue)>, key: &str) -> (r: Option<&'a String>)
    ensures
        match r {
            Some(s) => text_of(entry_for(entries@, key@)) == Some(s@),
            None => text_of(entry_for(entries@, key@)) is None,
        },
{
    match find_entry(entries, key) {
        Some(JsParamValue::Text(s)) => Some(s),
        _ => None,
    }
}

} // verus!
