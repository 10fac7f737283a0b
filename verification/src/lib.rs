//! Aggregation of a heterogeneous JSON payload: a sequence whose elements are
//! strings or 32-bit signed integers is folded into two totals, the summed
//! byte length of the string elements and the arithmetic sum of the integer
//! elements. Accumulation wraps around on 32-bit overflow.
//!
//! The crate also models the shape of a decoded JSON value, so that the
//! untagged element decoding (string or in-range integer accepted, anything
//! else rejected) is carried out and checked here; an HTTP layer only parses
//! bytes into those shapes and serializes the response.

pub mod data;
pub mod decode;
pub mod wrap32;
