//! The loosely typed structured value that inbound payloads arrive as.
//!
//! An inbound payload has no fixed schema: it may be a mapping, an array,
//! a scalar, or anything nested.  This module models such data as a tagged
//! variant.  Numbers are carried in fixed-point thousandths (a value `v`
//! stands for the rational `v / 1000`), which keeps every quantity the
//! pipeline reads a plain integer.

use vstd::prelude::*;

verus! {

/// A structured value: null, boolean, number, string, array, or mapping.
///
/// A mapping is a list of key/value entries; lookups take the first entry
/// with a matching key.  A number is a fixed-point quantity in thousandths.
pub enum StructuredValue {
    Null,
    Bool(bool),
    Num(i64),
    Str(String),
    Arr(Vec<StructuredValue>),
    Obj(Vec<(String, StructuredValue)>),
}

/// The value under `key` in a mapping: the first entry whose key matches.
pub open spec fn spec_obj_get(
    entries: Seq<(String, StructuredValue)>,
    key: Seq<char>,
) -> Option<StructuredValue>
    decreases entries.len(),
{
    if entries.len() == 0 {
        None
    } else if entries[0].0@ == key {
        Some(entries[0].1)
    } else {
        spec_obj_get(entries.skip(1), key)
    }
}

/// Looks up `key` in the entry list of a mapping.
pub fn obj_get<'a>(
    entries: &'a Vec<(String, StructuredValue)>,
    key: &String,
) -> (r: Option<&'a StructuredValue>)
    ensures
        match r {
            Some(v) => spec_obj_get(entries@, key@) == Some(*v),
            None => spec_obj_get(entries@, key@) is None,
        },
{
    let mut i: usize = 0;
    proof {
        assert(entries@.skip(0) =~= entries@);
    }
    while i < entries.len()
        invariant
            i <= entries@.len(),
            spec_obj_get(entries@, key@) == spec_obj_get(entries@.skip(i as int), key@),
        decreases entries@.len() - i,
    {
        if entries[i].0 == *key {
            assert(entries@.skip(i as int)[0] == entries@[i as int]);
            return Some(&entries[i].1);
        }
        proof {
            assert(entries@.skip(i as int)[0] == entries@[i as int]);
            assert(entries@.skip(i as int).skip(1) =~= entries@.skip(i as int + 1));
        }
        i = i + 1;
    }
    None
}

} // verus!
