use chaos::data::{process_data, requestDataValue, DataRequest, DataResponse};
use chaos::decode::{decode_data, decode_elem, handle_request, DecodeError, JsonElem};

fn str_elem(s: &str) -> JsonElem {
    JsonElem::JStr(s.to_string())
}

#[test]
fn empty_data_yields_zeroes() {
    let resp = process_data(&DataRequest { data: Vec::new() });
    assert_eq!(resp, DataResponse { string_len: 0, int_sum: 0 });
    let handled = handle_request(&Vec::new());
    assert_eq!(handled, Ok(DataResponse { string_len: 0, int_sum: 0 }));
}

#[test]
fn scenario_hello() {
    let elems = vec![str_elem("hello"), JsonElem::JInt(10), str_elem("!"), JsonElem::JInt(-3)];
    let resp = handle_request(&elems);
    assert_eq!(resp, Ok(DataResponse { string_len: 6, int_sum: 7 }));
}

#[test]
fn interface_example() {
    let elems = vec![str_elem("ab"), JsonElem::JInt(3), str_elem("cde"), JsonElem::JInt(-1)];
    let resp = handle_request(&elems);
    assert_eq!(resp, Ok(DataResponse { string_len: 5, int_sum: 2 }));
}

#[test]
fn order_independent() {
    let one = vec![str_elem("a"), JsonElem::JInt(1), str_elem("bb"), JsonElem::JInt(2)];
    let other = vec![JsonElem::JInt(1), str_elem("a"), JsonElem::JInt(2), str_elem("bb")];
    let first = handle_request(&one);
    let second = handle_request(&other);
    assert_eq!(first, Ok(DataResponse { string_len: 3, int_sum: 3 }));
    assert_eq!(first, second);
}

#[test]
fn same_request_twice() {
    let elems = vec![str_elem("stateless"), JsonElem::JInt(41), JsonElem::JInt(1)];
    let first = handle_request(&elems);
    let second = handle_request(&elems);
    assert_eq!(first, Ok(DataResponse { string_len: 9, int_sum: 42 }));
    assert_eq!(first, second);
}

#[test]
fn bool_element_rejected() {
    let elems = vec![str_elem("ok"), JsonElem::JBool(true)];
    assert_eq!(handle_request(&elems), Err(DecodeError::NotStringOrInt));
}

#[test]
fn null_element_rejected() {
    let elems = vec![JsonElem::JNull];
    assert_eq!(handle_request(&elems), Err(DecodeError::NotStringOrInt));
}

#[test]
fn nested_array_rejected() {
    let elems = vec![JsonElem::JInt(1), JsonElem::JArr];
    assert_eq!(handle_request(&elems), Err(DecodeError::NotStringOrInt));
}

#[test]
fn object_element_rejected() {
    let elems = vec![JsonElem::JObj];
    assert_eq!(handle_request(&elems), Err(DecodeError::NotStringOrInt));
}

#[test]
fn fractional_number_rejected() {
    let elems = vec![JsonElem::JNonIntNum];
    assert_eq!(handle_request(&elems), Err(DecodeError::NotStringOrInt));
}

#[test]
fn int_out_of_range_rejected() {
    let too_big = vec![JsonElem::JInt(i32::MAX as i64 + 1)];
    assert_eq!(handle_request(&too_big), Err(DecodeError::IntOutOfRange));
    let too_small = vec![JsonElem::JInt(i32::MIN as i64 - 1)];
    assert_eq!(handle_request(&too_small), Err(DecodeError::IntOutOfRange));
}

#[test]
fn first_failing_element_decides_the_error() {
    let bool_first = vec![JsonElem::JBool(false), JsonElem::JInt(i64::MAX)];
    assert_eq!(handle_request(&bool_first), Err(DecodeError::NotStringOrInt));
    let overflow_first = vec![JsonElem::JInt(i64::MAX), JsonElem::JBool(false)];
    assert_eq!(handle_request(&overflow_first), Err(DecodeError::IntOutOfRange));
}

#[test]
fn decode_elem_boundaries() {
    assert_eq!(
        decode_elem(&JsonElem::JInt(i32::MAX as i64)),
        Ok(requestDataValue::Int(i32::MAX))
    );
    assert_eq!(
        decode_elem(&JsonElem::JInt(i32::MIN as i64)),
        Ok(requestDataValue::Int(i32::MIN))
    );
    assert_eq!(decode_elem(&str_elem("")), Ok(requestDataValue::Str(String::new())));
}

#[test]
fn decode_data_keeps_order_and_values() {
    let elems = vec![str_elem("xy"), JsonElem::JInt(-7)];
    let req = decode_data(&elems).unwrap();
    assert_eq!(
        req.data,
        vec![requestDataValue::Str("xy".to_string()), requestDataValue::Int(-7)]
    );
}

#[test]
fn string_length_is_bytes() {
    let elems = vec![str_elem("héllo")];
    assert_eq!(handle_request(&elems), Ok(DataResponse { string_len: 6, int_sum: 0 }));
}

#[test]
fn int_sum_wraps_on_overflow() {
    let req = DataRequest {
        data: vec![requestDataValue::Int(i32::MAX), requestDataValue::Int(1)],
    };
    let resp = process_data(&req);
    assert_eq!(resp.int_sum, i32::MIN);
    assert_eq!(resp.string_len, 0);
    let down = DataRequest {
        data: vec![requestDataValue::Int(i32::MIN), requestDataValue::Int(-1)],
    };
    assert_eq!(process_data(&down).int_sum, i32::MAX);
}

#[test]
fn mixed_negative_sum() {
    let elems = vec![
        JsonElem::JInt(-5),
        str_elem("abc"),
        JsonElem::JInt(2),
        str_elem(""),
        JsonElem::JInt(-4),
    ];
    assert_eq!(handle_request(&elems), Ok(DataResponse { string_len: 3, int_sum: -7 }));
}
