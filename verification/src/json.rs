//! The shape of an incoming command line, as the protocol reads it.
//!
//! A line of input either is a JSON object or it is not; of an object the
//! protocol only ever reads the values of its fields, and of a value only
//! whether it is a string, or an array and which of its elements are
//! strings. `JsonItem` holds exactly that much, so that every decision
//! about a line is made by verified code; only the step from the raw text
//! to this shape is trusted to serde_json.

use vstd::prelude::*;

verus! {

/// One field value of a command object, reduced to what the protocol reads:
/// a string, an array (each element a string or not), or anything else.
#[derive(Debug)]
pub enum JsonItem {
    /// The field is a JSON string.
    Str(String),
    /// The field is a JSON array; each element is `Some` of its text if it
    /// is a string, `None` otherwise.
    Arr(Vec<Option<String>>),
    /// The field is null, a boolean, a number, or a nested object.
    Other,
}

/// What a line of text parses to: the fields of the JSON object it denotes
/// — keys unique (duplicates already resolved) and in sorted key order, as
/// serde_json's map iterates them — or `None` if the line is not a JSON
/// object at all. This is a fixed function of the text alone; nothing in
/// the protocol depends on the field order.
pub uninterp spec fn json_object_of(s: Seq<char>) -> Option<Vec<(String, JsonItem)>>;

/// Relies on `serde_json::from_str`: a line parses to a JSON value or it
/// does not, as a function of the text alone, and the arms below only
/// rename that value's shape field by field.
#[verifier::external_body]
pub(crate) fn parse_json_line(s: &str) -> (r: Option<Vec<(String, JsonItem)>>)
    ensures
        r == json_object_of(s@),
{
    match serde_json::from_str::<serde_json::Value>(s) {
        Ok(serde_json::Value::Object(m)) => Some(m.into_iter().map(|(k, v)| (k, match v {
            serde_json::Value::String(t) => JsonItem::Str(t),
            serde_json::Value::Array(a) => JsonItem::Arr(a.into_iter().map(|e| match e {
                serde_json::Value::String(t) => Some(t),
                _ => None,
            }).collect()),
            _ => JsonItem::Other,
        })).collect()),
        _ => None,
    }
}

/// The first field of `fields` named `key`, if any.
pub open spec fn spec_lookup(fields: Seq<(String, JsonItem)>, key: Seq<char>) -> Option<JsonItem>
    decreases fields.len(),
{
    if fields.len() == 0 {
        None
    } else if fields[0].0@ == key {
        Some(fields[0].1)
    } else {
        spec_lookup(fields.drop_first(), key)
    }
}

/// Returns the value of the first field named `key`, if any.
pub fn lookup<'a>(fields: &'a Vec<(String, JsonItem)>, key: &String) -> (r: Option<&'a JsonItem>)
    ensures
        match r {
            Some(it) => spec_lookup(fields@, key@) == Some(*it),
            None => spec_lookup(fields@, key@) is None,
        },
{
    let n = fields.len();
    let mut i: usize = 0;
    proof {
        assert(fields@.skip(0) =~= fields@);
    }
    while i < n
        invariant
            0 <= i <= n,
            n == fields@.len(),
            spec_lookup(fields@, key@) == spec_lookup(fields@.skip(i as int), key@),
        decreases n - i,
    {
        proof {
            assert(fields@.skip(i as int)[0] == fields@[i as int]);
            assert(fields@.skip(i as int).drop_first() =~= fields@.skip(i + 1));
        }
        let pair = &fields[i];
        if pair.0.eq(key) {
            return Some(&pair.1);
        }
        i = i + 1;
    }
    proof {
        assert(fields@.skip(n as int) =~= Seq::<(String, JsonItem)>::empty());
    }
    None
}

} // verus!
