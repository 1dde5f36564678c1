//! The JSON reader this crate relies on, `serde_json`, and what is taken on
//! trust about it. Nothing in this file is proved: each contract restates
//! what `serde_json` documents, over the model [`JsonShape`].

use vstd::prelude::*;

verus! {

/// What a JSON value holds, as far as a reader of counters can tell.
pub enum JsonShape {
    /// A number written as a non-negative integer that fits in 64 bits.
    Count(u64),
    /// An object: the names of its members and what each member holds.
    Object(Map<Seq<char>, JsonShape>),
    /// Any other value: null, a boolean, a text, an array, a negative or
    /// fractional number.
    Other,
}

#[verifier::external_type_specification]
#[verifier::external_body]
pub struct ExValue(serde_json::Value);

#[verifier::external_type_specification]
#[verifier::external_body]
pub struct ExError(serde_json::Error);

/// What a parsed `serde_json::Value` holds.
pub uninterp spec fn shape_of(value: serde_json::Value) -> JsonShape;

/// What `serde_json::from_str` makes of a text: the shape of the value it
/// returns, or `None` where it reports an error.
pub uninterp spec fn document_shape(text: Seq<char>) -> Option<JsonShape>;

/// Calls `serde_json::from_str` for a `serde_json::Value`. The result depends
/// on the text alone: an error exactly where [`document_shape`] is `None`,
/// otherwise a value of that shape.
#[verifier::external_body]
pub(crate) fn parse_value(text: &str) -> (parsed: Result<serde_json::Value, serde_json::Error>)
    ensures
        match parsed {
            Ok(value) => document_shape(text@) == Some(shape_of(value)),
            Err(_) => document_shape(text@) is None,
        },
{
    serde_json::from_str::<serde_json::Value>(text)
}

/// Calls `serde_json::Value::get` with a member name. It returns the member
/// of that name where the value is an object that has one, and `None` for an
/// object without it and for every value that is no object.
#[verifier::external_body]
pub(crate) fn member<'a>(value: &'a serde_json::Value, name: &str) -> (found: Option<&'a serde_json::Value>)
    ensures
        match found {
            Some(inner) => shape_of(*value) matches JsonShape::Object(members)
                && members.contains_key(name@) && members[name@] == shape_of(*inner),
            None => !(shape_of(*value) matches JsonShape::Object(members) && members.contains_key(name@)),
        },
{
    value.get(name)
}

/// Calls `serde_json::Value::as_u64`. It returns the number where the value
/// is a non-negative integer that fits in 64 bits, and `None` otherwise.
#[verifier::external_body]
pub(crate) fn as_count(value: &serde_json::Value) -> (count: Option<u64>)
    ensures
        count == match shape_of(*value) {
            JsonShape::Count(n) => Some(n),
            _ => None,
        },
{
    value.as_u64()
}

} // verus!
