//! Untagged element decoding. A payload element arrives as a JSON value with
//! no type tag; its native JSON shape alone decides the variant. `JsonElem`
//! holds that shape as plain values, an HTTP layer classifies parsed JSON
//! into it, and the functions here accept a string or an in-range integer
//! and reject everything else — rejecting the whole request on the first
//! offending element, as wholesale decoding does.

use crate::data::{process_data, response_of, DataRequest, DataResponse, requestDataValue};
use vstd::prelude::*;

verus! {

/// The native shape of one JSON array element, as plain values. Shapes that
/// can never decode (booleans, null, nested arrays, objects, numbers with no
/// 64-bit integer value) carry no payload: only the shape matters.
#[derive(Debug, PartialEq, Eq)]
pub enum JsonElem {
    /// A JSON string.
    JStr(String),
    /// A JSON number with an integral 64-bit value.
    JInt(i64),
    /// A JSON boolean.
    JBool(bool),
    /// The JSON null.
    JNull,
    /// A nested JSON array.
    JArr,
    /// A nested JSON object.
    JObj,
    /// A JSON number with no 64-bit integer value (fractional, or too wide).
    JNonIntNum,
}

/// Why a request was rejected.
#[derive(Debug, Clone, Copy, PartialEq, Eq, Structural)]
pub enum DecodeError {
    /// An element was neither a JSON string nor a JSON integer.
    NotStringOrInt,
    /// An integer element lay outside the 32-bit signed range.
    IntOutOfRange,
}

/// Whether one element decodes: a string always does, an integer does when
/// it fits the 32-bit signed range, nothing else ever does.
pub open spec fn elem_ok(e: JsonElem) -> bool {
    match e {
        JsonElem::JStr(_) => true,
        JsonElem::JInt(i) => i32::MIN <= i <= i32::MAX,
        _ => false,
    }
}

/// The payload value an element decodes to, meaningful when `elem_ok` holds.
pub open spec fn elem_value(e: JsonElem) -> requestDataValue {
    match e {
        JsonElem::JStr(s) => requestDataValue::Str(s),
        JsonElem::JInt(i) => requestDataValue::Int(i as i32),
        _ => arbitrary(),
    }
}

/// The rejection an element earns when `elem_ok` fails.
pub open spec fn elem_error(e: JsonElem) -> DecodeError {
    match e {
        JsonElem::JInt(_) => DecodeError::IntOutOfRange,
        _ => DecodeError::NotStringOrInt,
    }
}

/// Whether every element of a payload decodes.
pub open spec fn all_elems_ok(s: Seq<JsonElem>) -> bool {
    forall|i: int| 0 <= i < s.len() ==> elem_ok(#[trigger] s[i])
}

/// The decoded payload, elementwise; meaningful when `all_elems_ok` holds.
pub open spec fn decoded_values(s: Seq<JsonElem>) -> Seq<requestDataValue> {
    s.map_values(|e: JsonElem| elem_value(e))
}

/// Decodes one element: a string as `Str`, an in-range integer as `Int`,
/// and anything else as the rejection it earns.
pub fn decode_elem(e: &JsonElem) -> (r: Result<requestDataValue, DecodeError>)
    ensures
        elem_ok(*e) ==> r == Ok::<requestDataValue, DecodeError>(elem_value(*e)),
        !elem_ok(*e) ==> r == Err::<requestDataValue, DecodeError>(elem_error(*e)),
{
    match e {
        JsonElem::JStr(s) => Ok(requestDataValue::Str(s.clone())),
        JsonElem::JInt(i) => {
            if i32::MIN as i64 <= *i && *i <= i32::MAX as i64 {
                Ok(requestDataValue::Int(*i as i32))
            } else {
                Err(DecodeError::IntOutOfRange)
            }
        },
        JsonElem::JBool(_) => Err(DecodeError::NotStringOrInt),
        JsonElem::JNull => Err(DecodeError::NotStringOrInt),
        JsonElem::JArr => Err(DecodeError::NotStringOrInt),
        JsonElem::JObj => Err(DecodeError::NotStringOrInt),
        JsonElem::JNonIntNum => Err(DecodeError::NotStringOrInt),
    }
}

/// Decodes a whole payload, or rejects it wholesale on the first element
/// that does not decode.
pub fn decode_data(elems: &Vec<JsonElem>) -> (r: Result<DataRequest, DecodeError>)
    ensures
        all_elems_ok(elems@) ==> (r matches Ok(req) && req.data@ == decoded_values(elems@)),
        !all_elems_ok(elems@) ==> (r matches Err(err) && exists|i: int|
            #![trigger elems@[i]]
            0 <= i < elems@.len() && !elem_ok(elems@[i]) && (forall|j: int|
                0 <= j < i ==> elem_ok(#[trigger] elems@[j])) && err == elem_error(elems@[i])),
{
    let mut out: Vec<requestDataValue> = Vec::new();
    let n: usize = elems.len();
    for idx in 0..n
        invariant
            n == elems@.len(),
            out@.len() == idx,
            forall|j: int| 0 <= j < idx ==> elem_ok(#[trigger] elems@[j]),
            forall|j: int| 0 <= j < idx ==> out@[j] == elem_value(#[trigger] elems@[j]),
    {
        match decode_elem(&elems[idx]) {
            Ok(v) => out.push(v),
            Err(err) => {
                proof {
                    assert((idx as int) < elems@.len() && !elem_ok(elems@[idx as int])
                        && (forall|j: int| 0 <= j < idx as int ==> elem_ok(#[trigger] elems@[j]))
                        && err == elem_error(elems@[idx as int]));
                }
                return Err(err);
            },
        }
    }
    proof {
        assert(decoded_values(elems@) =~= out@);
    }
    Ok(DataRequest { data: out })
}

/// The whole endpoint on a decoded JSON payload: decode every element, then
/// aggregate. A payload of strings and in-range integers is owed the exact
/// response; any other payload is rejected with the first element's error.
pub fn handle_request(elems: &Vec<JsonElem>) -> (r: Result<DataResponse, DecodeError>)
    ensures
        all_elems_ok(elems@) ==> r == Ok::<DataResponse, DecodeError>(
            response_of(decoded_values(elems@)),
        ),
        !all_elems_ok(elems@) ==> (r matches Err(err) && exists|i: int|
            #![trigger elems@[i]]
            0 <= i < elems@.len() && !elem_ok(elems@[i]) && (forall|j: int|
                0 <= j < i ==> elem_ok(#[trigger] elems@[j])) && err == elem_error(elems@[i])),
{
    match decode_data(elems) {
        Ok(req) => Ok(process_data(&req)),
        Err(err) => Err(err),
    }
}

} // verus!
