//! The library's own model of a JSON value.
//!
//! Configuration payloads reach this crate as generic JSON. The logic that
//! classifies and validates them works on this model, so that every decision
//! about a payload's shape is made by verified code. Numbers that do not fit
//! a 64-bit signed integer are carried as their literal text, unread.

use vstd::prelude::*;
use vstd::string::StringExecFns;

verus! {

/// A generic JSON value.
///
/// Object members keep their order as a sequence of pairs; a lookup takes the
/// first member with the wanted key.
#[derive(Debug)]
pub enum JsonValue {
    Null,
    Bool(bool),
    Int(i64),
    /// A JSON number outside the signed 64-bit range (or not an integer),
    /// kept as its literal text. No field of the adapter schema accepts it.
    OtherNum(String),
    Str(String),
    Arr(Vec<JsonValue>),
    Obj(Vec<(String, JsonValue)>),
}

/// The first member of `fields` whose key reads `key`, if any.
pub open spec fn lookup(fields: Seq<(String, JsonValue)>, key: Seq<char>) -> Option<JsonValue>
    decreases fields.len(),
{
    if fields.len() == 0 {
        None
    } else if fields[0].0@ == key {
        Some(fields[0].1)
    } else {
        lookup(fields.drop_first(), key)
    }
}

/// Whether two string slices read the same characters.
pub fn str_eq(a: &str, b: &str) -> (r: bool)
    ensures
        r == (a@ == b@),
{
    let sa = String::from_str(a);
    let sb = String::from_str(b);
    sa == sb
}

/// Finds the first member of a JSON object with the given key.
pub fn obj_lookup<'a>(fields: &'a Vec<(String, JsonValue)>, key: &str) -> (r: Option<
    &'a JsonValue,
>)
    ensures
        r is Some <==> lookup(fields@, key@) is Some,
        r is Some ==> *r->Some_0 == lookup(fields@, key@)->Some_0,
{
    let mut i: usize = 0;
    proof {
        assert(fields@.skip(0) =~= fields@);
    }
    while i < fields.len()
        invariant
            i <= fields@.len(),
            lookup(fields@, key@) == lookup(fields@.skip(i as int), key@),
        decreases fields@.len() - i,
    {
        proof {
            assert(fields@.skip(i as int)[0] == fields@[i as int]);
            assert(fields@.skip(i as int).drop_first() =~= fields@.skip(i as int + 1));
        }
        if str_eq(fields[i].0.as_str(), key) {
            return Some(&fields[i].1);
        }
        i = i + 1;
    }
    proof {
        assert(fields@.skip(i as int).len() == 0);
    }
    None
}

} // verus!
