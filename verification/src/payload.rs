//! The self-describing message payload, reduced to the shape the record
//! translator works on: either a malformed document, a document whose top
//! level is not an object, or the object's fields in the order the parser
//! yields them.

use vstd::prelude::*;

verus! {

/// One field value of the top-level object, coerced to the dynamic types the
/// translator can bind.  `Other` covers every value the translator rejects:
/// null, arrays, nested objects, and numbers that are not exactly
/// representable as a 64-bit signed integer — such numbers are rejected
/// outright rather than silently truncated or widened.
#[derive(Debug, Clone, PartialEq, Eq)]
pub enum FieldValue {
    Bool(bool),
    Int(i64),
    Text(String),
    Other,
}

/// The mathematical shape of a [`FieldValue`].
pub ghost enum FieldValueModel {
    Bool(bool),
    Int(int),
    Text(Seq<char>),
    Other,
}

impl View for FieldValue {
    type V = FieldValueModel;

    open spec fn view(&self) -> FieldValueModel {
        match self {
            FieldValue::Bool(b) => FieldValueModel::Bool(*b),
            FieldValue::Int(i) => FieldValueModel::Int(*i as int),
            FieldValue::Text(s) => FieldValueModel::Text(s@),
            FieldValue::Other => FieldValueModel::Other,
        }
    }
}

/// A payload after parsing: rejected outright, rejected for its top-level
/// shape, or an object given as its fields in parser order.
#[derive(Debug, Clone, PartialEq, Eq)]
pub enum ParsedPayload {
    /// The bytes are not a well-formed document.
    Malformed,
    /// The document is well-formed but its top level is an array, a scalar
    /// or null rather than an object.
    NotObject,
    /// The top level is an object; its fields, in the parser's order.
    Object(Vec<(String, FieldValue)>),
}

/// The mathematical shape of a [`ParsedPayload`].
pub ghost enum PayloadModel {
    Malformed,
    NotObject,
    Object(Seq<(Seq<char>, FieldValueModel)>),
}

impl View for ParsedPayload {
    type V = PayloadModel;

    open spec fn view(&self) -> PayloadModel {
        match self {
            ParsedPayload::Malformed => PayloadModel::Malformed,
            ParsedPayload::NotObject => PayloadModel::NotObject,
            ParsedPayload::Object(fields) => PayloadModel::Object(
                fields@.map_values(|f: (String, FieldValue)| (f.0@, f.1@)),
            ),
        }
    }
}

/// What the parser makes of a byte sequence.  The document grammar and the
/// parser's field order take pages to state, but the outcome is a function
/// of the bytes alone, so it is only named here; the trusted wrapper below
/// ties the name to the parser, and everything downstream is verified
/// against the name.
pub uninterp spec fn parsed(bytes: Seq<u8>) -> PayloadModel;

/// Relies on serde_json::from_slice to parse the bytes (its default map
/// keeps keys in a deterministic order), and on serde_json::Number::as_i64,
/// which yields the value exactly when it is an integer representable as
/// i64.  The outcome depends on the bytes alone, so it is named `parsed`.
#[verifier::external_body]
pub(crate) fn parse_payload(bytes: &[u8]) -> (r: ParsedPayload)
    ensures
        r@ == parsed(bytes@),
{
    let conv = |v: serde_json::Value| match v {
        serde_json::Value::Bool(b) => FieldValue::Bool(b),
        serde_json::Value::Number(n) => n.as_i64().map_or(FieldValue::Other, FieldValue::Int),
        serde_json::Value::String(s) => FieldValue::Text(s),
        _ => FieldValue::Other,
    };
    match serde_json::from_slice::<serde_json::Value>(bytes) {
        Err(_) => ParsedPayload::Malformed,
        Ok(serde_json::Value::Object(m)) => ParsedPayload::Object(
            m.into_iter().map(|(k, v)| (k, conv(v))).collect(),
        ),
        Ok(_) => ParsedPayload::NotObject,
    }
}

} // verus!
