//! A JSON document as plain data.
//!
//! The decoders of this library read documents of this type; whoever holds a
//! document in another form converts it first. An object keeps its members in
//! a list, and a key finds the first member that carries it.

use vstd::prelude::*;
use crate::text::str_eq;

verus! {

/// A JSON value. A number that fits `i64` is `Int`; any other number is
/// `Float`, which keeps the number as it is written and whether it differs
/// from zero.
#[derive(Debug)]
pub enum JsonValue {
    Null,
    Bool(bool),
    Int(i64),
    Float { written: String, nonzero: bool },
    Text(String),
    Array(Vec<JsonValue>),
    Object(Vec<(String, JsonValue)>),
}

/// The value of the first member of `fields` whose key is `key`.
pub open spec fn lookup(fields: Seq<(String, JsonValue)>, key: Seq<char>) -> Option<JsonValue>
    decreases fields.len(),
{
    if fields.len() == 0 {
        None
    } else if fields[0].0@ == key {
        Some(fields[0].1)
    } else {
        lookup(fields.drop_first(), key)
    }
}

/// The values of the members of `fields`, in their order.
pub open spec fn member_values(fields: Seq<(String, JsonValue)>) -> Seq<JsonValue> {
    Seq::new(fields.len(), |i: int| fields[i].1)
}

impl JsonValue {
    /// The member `key` of an object; `None` for a missing key and for any other value.
    pub open spec fn member(self, key: Seq<char>) -> Option<JsonValue> {
        match self {
            JsonValue::Object(fields) => lookup(fields@, key),
            _ => None,
        }
    }

    /// The characters of a string value.
    pub open spec fn text(self) -> Option<Seq<char>> {
        match self {
            JsonValue::Text(s) => Some(s@),
            _ => None,
        }
    }

    /// The number of an integer value.
    pub open spec fn integer(self) -> Option<i64> {
        match self {
            JsonValue::Int(n) => Some(n),
            _ => None,
        }
    }

    /// The elements of an array.
    pub open spec fn elements(self) -> Option<Seq<JsonValue>> {
        match self {
            JsonValue::Array(items) => Some(items@),
            _ => None,
        }
    }

    /// The members of an object.
    pub open spec fn members(self) -> Option<Seq<(String, JsonValue)>> {
        match self {
            JsonValue::Object(fields) => Some(fields@),
            _ => None,
        }
    }

    /// The member `key` of an object.
    pub fn get(&self, key: &str) -> (r: Option<&JsonValue>)
        ensures
            r.is_some() == self.member(key@).is_some(),
            r matches Some(v) ==> self.member(key@) == Some(*v),
    {
        match self {
            JsonValue::Object(fields) => find_member(fields, key),
            _ => None,
        }
    }

    /// The characters of a string value.
    pub fn as_str(&self) -> (r: Option<&str>)
        ensures
            r.is_some() == self.text().is_some(),
            r matches Some(s) ==> self.text() == Some(s@),
    {
        match self {
            JsonValue::Text(s) => Some(s.as_str()),
            _ => None,
        }
    }

    /// The number of an integer value.
    pub fn as_i64(&self) -> (r: Option<i64>)
        ensures
            r == self.integer(),
    {
        match self {
            JsonValue::Int(n) => Some(*n),
            _ => None,
        }
    }

    /// The elements of an array.
    pub fn as_array(&self) -> (r: Option<&Vec<JsonValue>>)
        ensures
            r.is_some() == self.elements().is_some(),
            r matches Some(v) ==> self.elements() == Some(v@),
    {
        match self {
            JsonValue::Array(items) => Some(items),
            _ => None,
        }
    }

    /// The members of an object.
    pub fn as_object(&self) -> (r: Option<&Vec<(String, JsonValue)>>)
        ensures
            r.is_some() == self.members().is_some(),
            r matches Some(v) ==> self.members() == Some(v@),
    {
        match self {
            JsonValue::Object(fields) => Some(fields),
            _ => None,
        }
    }
}

/// The value of the first member of `fields` whose key is `key`.
pub fn find_member<'a>(fields: &'a Vec<(String, JsonValue)>, key: &str) -> (r: Option<&'a JsonValue>)
    ensures
        r.is_some() == lookup(fields@, key@).is_some(),
        r matches Some(v) ==> lookup(fields@, key@) == Some(*v),
{
    let mut i: usize = 0;
    assert(fields@.skip(0) =~= fields@);
    while i < fields.len()
        invariant
            i <= fields.len(),
            lookup(fields@, key@) == lookup(fields@.skip(i as int), key@),
        decreases fields.len() - i,
    {
        let rest = Ghost(fields@.skip(i as int));
        if str_eq(fields[i].0.as_str(), key) {
            return Some(&fields[i].1);
        }
        proof {
            assert(rest@.drop_first() =~= fields@.skip(i as int + 1));
        }
        i += 1;
    }
    None
}

} // verus!
