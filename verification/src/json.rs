//! Reading a JSON document through `serde_json` and `serde_json_borrow`.
//!
//! A parsed document is kept in the type those crates give it. Its contents are spoken of through
//! [`JsonModel`], a mathematical tree, and each accessor that the rest of the library uses says
//! what it reads of that tree.
use serde_json_borrow::Value;
use vstd::prelude::*;

verus! {

/// A JSON document as a mathematical tree.
///
/// Objects keep their members in the order of the text, repeated keys included.
pub enum JsonModel {
    Null,
    Bool(bool),
    /// A number written as an integer from zero up.
    Unsigned(u64),
    /// A number written as a negative integer.
    Signed(i64),
    /// A number that is not held as an integer.
    Fraction,
    Text(Seq<char>),
    Array(Seq<JsonModel>),
    Object(Seq<(Seq<char>, JsonModel)>),
}

/// The value of the first member called `key`, or null where there is none.
pub open spec fn first_member(members: Seq<(Seq<char>, JsonModel)>, key: Seq<char>) -> JsonModel
    decreases members.len(),
{
    if members.len() == 0 {
        JsonModel::Null
    } else if members[0].0 == key {
        members[0].1
    } else {
        first_member(members.drop_first(), key)
    }
}

impl JsonModel {
    /// The member `key` of an object; null for anything else.
    pub open spec fn member(self, key: Seq<char>) -> JsonModel {
        match self {
            JsonModel::Object(members) => first_member(members, key),
            _ => JsonModel::Null,
        }
    }

    /// The integer as an unsigned one, where it is one.
    pub open spec fn unsigned(self) -> Option<u64> {
        match self {
            JsonModel::Unsigned(n) => Some(n),
            _ => None,
        }
    }

    /// The integer as a signed one, where it fits.
    pub open spec fn signed(self) -> Option<i64> {
        match self {
            JsonModel::Unsigned(n) => if n <= i64::MAX {
                Some(n as i64)
            } else {
                None
            },
            JsonModel::Signed(n) => Some(n),
            _ => None,
        }
    }

    /// The items of an array.
    pub open spec fn items(self) -> Option<Seq<JsonModel>> {
        match self {
            JsonModel::Array(items) => Some(items),
            _ => None,
        }
    }
}

#[verifier::external_type_specification]
#[verifier::external_body]
pub struct ExValue<'ctx>(Value<'ctx>);

#[verifier::external_type_specification]
#[verifier::external_body]
pub struct ExJsonError(serde_json::Error);

/// What a parsed document holds.
pub uninterp spec fn json_model(value: Value<'_>) -> JsonModel;

/// What `serde_json::from_slice` makes of a text: nothing where it is no JSON document.
pub uninterp spec fn json_of_bytes(bytes: Seq<u8>) -> Option<JsonModel>;

/// Calls `serde_json::from_slice` for a `serde_json_borrow::Value`. The contract claims that the
/// outcome is a function of the bytes alone; which texts are accepted is left to the crate.
#[verifier::external_body]
pub(crate) fn parse_json<'a>(bytes: &'a [u8]) -> (result: Result<Value<'a>, serde_json::Error>)
    ensures
        result is Ok <==> json_of_bytes(bytes@) is Some,
        result matches Ok(value) ==> json_of_bytes(bytes@) == Some(json_model(value)),
{
    serde_json::from_slice(bytes)
}

/// Calls `serde_json_borrow::Value::get` with a string key, which walks the members of an object
/// in order and answers null where the key is missing or the value is no object.
#[verifier::external_body]
pub(crate) fn json_get<'a>(value: &'a Value<'a>, key: &'a str) -> (member: &'a Value<'a>)
    ensures
        json_model(*member) == json_model(*value).member(key@),
{
    value.get(key)
}

/// Calls `serde_json_borrow::Value::as_u64`, which gives the number back where it was read as an
/// unsigned integer.
#[verifier::external_body]
pub(crate) fn json_u64(value: &Value<'_>) -> (number: Option<u64>)
    ensures
        number == json_model(*value).unsigned(),
{
    value.as_u64()
}

/// Calls `serde_json_borrow::Value::as_i64`, which gives the number back where it is an integer
/// that fits.
#[verifier::external_body]
pub(crate) fn json_i64(value: &Value<'_>) -> (number: Option<i64>)
    ensures
        number == json_model(*value).signed(),
{
    value.as_i64()
}

/// Calls `serde_json_borrow::Value::as_array`, which lends the items of an array.
#[verifier::external_body]
pub(crate) fn json_items<'a, 'b>(value: &'b Value<'a>) -> (items: Option<&'b [Value<'a>]>)
    ensures
        items is Some <==> json_model(*value).items() is Some,
        items matches Some(lent) ==> {
            &&& lent@.len() == json_model(*value).items()->0.len()
            &&& forall|i: int|
                0 <= i < lent@.len() ==> json_model(#[trigger] lent@[i])
                    == json_model(*value).items()->0[i]
        },
{
    value.as_array()
}

/// Calls `serde_json_borrow::Value::is_null`.
#[verifier::external_body]
pub(crate) fn json_is_null(value: &Value<'_>) -> (null: bool)
    ensures
        null == (json_model(*value) is Null),
{
    value.is_null()
}

} // verus!
