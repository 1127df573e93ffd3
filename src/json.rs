//! A JSON document tree, the form in which response bodies and push frames
//! reach the decoders of this crate.

use vstd::prelude::*;

verus! {

/// One JSON value. Numbers that are not integers are kept only as a marker:
/// no field that this crate reads holds one.
#[derive(Debug)]
pub enum Json {
    Null,
    Bool(bool),
    Int(i128),
    NonInteger,
    Str(String),
    Array(Vec<Json>),
    Object(Vec<(String, Json)>),
}

/// The value stored under `key` in an object's entries: the first entry with
/// that key, if any.
pub open spec fn field(entries: Seq<(String, Json)>, key: Seq<char>) -> Option<Json>
    decreases entries.len(),
{
    if entries.len() == 0 {
        None
    } else if entries[0].0@ == key {
        Some(entries[0].1)
    } else {
        field(entries.drop_first(), key)
    }
}

/// A field counts as given when it is there and not `null`.
pub open spec fn given(v: Option<Json>) -> bool {
    match v {
        Some(Json::Null) => false,
        Some(_) => true,
        None => false,
    }
}

/// What a lookup handed back, as a value.
pub open spec fn found(v: Option<&Json>) -> Option<Json> {
    match v {
        Some(j) => Some(*j),
        None => None,
    }
}

/// Whether a string holds exactly the given text.
pub fn is_text(s: &String, text: &str) -> (r: bool)
    ensures
        r == (s@ == text@),
{
    let t = text.to_owned();
    *s == t
}

/// Looks up `key` among an object's entries.
pub fn get_field<'a>(entries: &'a Vec<(String, Json)>, key: &str) -> (r: Option<&'a Json>)
    ensures
        found(r) == field(entries@, key@),
{
    let n = entries.len();
    let mut i: usize = 0;
    assert(entries@.subrange(0, n as int) =~= entries@);
    while i < n
        invariant
            n == entries@.len(),
            0 <= i <= n,
            field(entries@, key@) == field(entries@.subrange(i as int, n as int), key@),
        decreases n - i,
    {
        let ghost rest = entries@.subrange(i as int, n as int);
        assert(rest.drop_first() =~= entries@.subrange(i + 1, n as int));
        let e = &entries[i];
        if is_text(&e.0, key) {
            return Some(&e.1);
        }
        i = i + 1;
    }
    None
}

/// Whether a looked-up field is there and not `null`.
pub fn is_given(v: Option<&Json>) -> (r: bool)
    ensures
        r == given(found(v)),
{
    match v {
        Some(Json::Null) => false,
        Some(_) => true,
        None => false,
    }
}

} // verus!
