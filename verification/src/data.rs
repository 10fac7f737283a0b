//! The request and response shapes and the aggregation itself: a fold over
//! the payload that totals the byte lengths of the string elements and the
//! values of the integer elements, each in wrap-around 32-bit arithmetic.

use crate::wrap32::{lemma_crop_add, lemma_crop_identity};
use vstd::prelude::*;
use vstd::seq_lib::{commutative_foldr, lemma_fold_right_permutation};
use vstd::utf8::encode_utf8;
use vstd::wrapping::i32_specs;

verus! {

/// One element of the request payload: a JSON string or a 32-bit signed
/// integer, told apart by the JSON value's native type rather than a tag.
#[allow(non_camel_case_types)]
#[derive(Debug, PartialEq, Eq)]
pub enum requestDataValue {
    Str(String),
    Int(i32),
}

/// A decoded request: the ordered sequence of payload elements.
#[derive(Debug)]
pub struct DataRequest {
    pub data: Vec<requestDataValue>,
}

/// The two aggregates returned to the client.
#[derive(Debug, Clone, Copy, PartialEq, Eq, Structural)]
pub struct DataResponse {
    pub string_len: i32,
    pub int_sum: i32,
}

/// What a string element adds to `string_len`: its UTF-8 byte length, as the
/// running code measures it (`str::len`, a `usize`). Integer elements add
/// nothing.
pub open spec fn len_contrib(v: requestDataValue) -> int {
    match v {
        requestDataValue::Str(s) => (encode_utf8(s@).len() as usize) as int,
        requestDataValue::Int(_) => 0,
    }
}

/// What an integer element adds to `int_sum`: its value. String elements add
/// nothing.
pub open spec fn int_contrib(v: requestDataValue) -> int {
    match v {
        requestDataValue::Str(_) => 0,
        requestDataValue::Int(i) => i as int,
    }
}

/// The sum of `c` over the elements of `s`, as an unbounded integer.
pub open spec fn sum_of(s: Seq<requestDataValue>, c: spec_fn(requestDataValue) -> int) -> int
    decreases s.len(),
{
    if s.len() == 0 {
        0
    } else {
        sum_of(s.drop_last(), c) + c(s.last())
    }
}

pub open spec fn int_contrib_fn() -> spec_fn(requestDataValue) -> int {
    |v: requestDataValue| int_contrib(v)
}

pub open spec fn len_contrib_fn() -> spec_fn(requestDataValue) -> int {
    |v: requestDataValue| len_contrib(v)
}

/// The exact arithmetic sum of the integer elements of `s`.
pub open spec fn int_sum_of(s: Seq<requestDataValue>) -> int {
    sum_of(s, int_contrib_fn())
}

/// The exact sum of the byte lengths of the string elements of `s`.
pub open spec fn string_len_of(s: Seq<requestDataValue>) -> int {
    sum_of(s, len_contrib_fn())
}

/// The response owed for a payload: each total is the 32-bit wrap-around
/// image of the exact sum.
pub open spec fn response_of(s: Seq<requestDataValue>) -> DataResponse {
    DataResponse {
        string_len: i32_specs::signed_crop(string_len_of(s)),
        int_sum: i32_specs::signed_crop(int_sum_of(s)),
    }
}

/// Folds the payload into its two totals, visiting the elements in order,
/// with wrap-around 32-bit addition on overflow.
pub fn process_data(request: &DataRequest) -> (r: DataResponse)
    ensures
        r == response_of(request.data@),
{
    let mut string_len: i32 = 0;
    let mut int_sum: i32 = 0;
    let n: usize = request.data.len();
    proof {
        assert(request.data@.take(0) =~= Seq::<requestDataValue>::empty());
        lemma_crop_identity(0i32);
    }
    for idx in 0..n
        invariant
            n == request.data@.len(),
            string_len == i32_specs::signed_crop(string_len_of(request.data@.take(idx as int))),
            int_sum == i32_specs::signed_crop(int_sum_of(request.data@.take(idx as int))),
    {
        let ghost prefix = request.data@.take(idx as int);
        let ghost grown = request.data@.take(idx as int + 1);
        proof {
            assert(grown.drop_last() =~= prefix);
            assert(grown.last() == request.data@[idx as int]);
        }
        match &request.data[idx] {
            requestDataValue::Str(s) => {
                let l: i32 = crate::wrap32::crop_len(s.as_str().len());
                proof {
                    lemma_crop_add(string_len_of(prefix), len_contrib(grown.last()));
                }
                string_len = string_len.wrapping_add(l);
            },
            requestDataValue::Int(i) => {
                proof {
                    lemma_crop_identity(*i);
                    lemma_crop_add(int_sum_of(prefix), int_contrib(grown.last()));
                }
                int_sum = int_sum.wrapping_add(*i);
            },
        }
    }
    proof {
        assert(request.data@.take(n as int) =~= request.data@);
    }
    DataResponse { string_len, int_sum }
}

spec fn add_of(c: spec_fn(requestDataValue) -> int) -> spec_fn(requestDataValue, int) -> int {
    |v: requestDataValue, acc: int| acc + c(v)
}

proof fn lemma_sum_fold_shift(s: Seq<requestDataValue>, c: spec_fn(requestDataValue) -> int, b: int)
    ensures
        s.fold_right(add_of(c), b) == s.fold_right(add_of(c), 0) + b,
    decreases s.len(),
{
    if s.len() > 0 {
        lemma_sum_fold_shift(s.drop_last(), c, add_of(c)(s.last(), b));
        lemma_sum_fold_shift(s.drop_last(), c, add_of(c)(s.last(), 0));
    }
}

proof fn lemma_sum_is_fold(s: Seq<requestDataValue>, c: spec_fn(requestDataValue) -> int)
    ensures
        sum_of(s, c) == s.fold_right(add_of(c), 0),
    decreases s.len(),
{
    if s.len() > 0 {
        lemma_sum_is_fold(s.drop_last(), c);
        lemma_sum_fold_shift(s.drop_last(), c, add_of(c)(s.last(), 0));
    }
}

/// A sum over a payload depends only on which elements it holds, with their
/// multiplicities, never on their order.
pub proof fn lemma_sum_permutation(
    s1: Seq<requestDataValue>,
    s2: Seq<requestDataValue>,
    c: spec_fn(requestDataValue) -> int,
)
    requires
        s1.to_multiset() == s2.to_multiset(),
    ensures
        sum_of(s1, c) == sum_of(s2, c),
{
    assert(commutative_foldr(add_of(c)));
    lemma_sum_is_fold(s1, c);
    lemma_sum_is_fold(s2, c);
    lemma_fold_right_permutation(s1, s2, add_of(c), 0);
}

/// Order independence: payloads that hold the same elements, with the same
/// multiplicities, are owed the same response, however they interleave.
pub proof fn lemma_order_independence(d1: Seq<requestDataValue>, d2: Seq<requestDataValue>)
    requires
        d1.to_multiset() == d2.to_multiset(),
    ensures
        response_of(d1) == response_of(d2),
{
    lemma_sum_permutation(d1, d2, int_contrib_fn());
    lemma_sum_permutation(d1, d2, len_contrib_fn());
}

/// Statelessness: the response is a function of the payload alone, so
/// issuing the same request twice yields identical responses.
pub proof fn lemma_same_payload_same_response(d1: Seq<requestDataValue>, d2: Seq<requestDataValue>)
    requires
        d1 == d2,
    ensures
        response_of(d1) == response_of(d2),
{
}

} // verus!
