//! Wrap-around 32-bit arithmetic: the accumulators wrap on overflow, and the
//! lemmas here let a chain of `i32::wrapping_add` steps be summarized as the
//! 32-bit image (`i32_specs::signed_crop`) of one exact, unbounded sum.

use vstd::arithmetic::div_mod::lemma_fundamental_div_mod;
use vstd::prelude::*;
use vstd::wrapping::i32_specs;

verus! {

/// `signed_crop` picks the unique value in the 32-bit signed range that
/// differs from `x` by a multiple of 2^32; any such value equals it.
pub proof fn lemma_crop_unique(x: int, v: int, k: int)
    requires
        i32::MIN <= v <= i32::MAX,
        v == x - 0x1_0000_0000 * k,
    ensures
        v == i32_specs::signed_crop(x) as int,
{
    let r: int = 0x1_0000_0000;
    lemma_fundamental_div_mod(x, r);
    let c: int = i32_specs::signed_crop(x) as int;
    let kc: int = if x % r > i32::MAX as int {
        x / r + 1
    } else {
        x / r
    };
    assert(c == x - r * kc);
    let t: int = kc - k;
    assert(v - c == r * t);
    assert(t == 0) by (nonlinear_arith)
        requires
            v - c == r * t,
            -r < v - c < r,
            r == 0x1_0000_0000,
    ;
}

/// A value already in the 32-bit signed range is its own 32-bit image.
pub proof fn lemma_crop_identity(v: i32)
    ensures
        i32_specs::signed_crop(v as int) == v,
{
    lemma_crop_unique(v as int, v as int, 0);
}

/// One wrapping addition of two 32-bit images is the 32-bit image of the
/// exact sum: cropping commutes with addition.
pub proof fn lemma_crop_add(a: int, b: int)
    ensures
        i32_specs::wrapping_add(i32_specs::signed_crop(a), i32_specs::signed_crop(b))
            == i32_specs::signed_crop(a + b),
{
    let r: int = 0x1_0000_0000;
    lemma_fundamental_div_mod(a, r);
    lemma_fundamental_div_mod(b, r);
    let ca: int = i32_specs::signed_crop(a) as int;
    let cb: int = i32_specs::signed_crop(b) as int;
    let ka: int = if a % r > i32::MAX as int {
        a / r + 1
    } else {
        a / r
    };
    let kb: int = if b % r > i32::MAX as int {
        b / r + 1
    } else {
        b / r
    };
    assert(ca == a - r * ka);
    assert(cb == b - r * kb);
    let w: int = i32_specs::wrapping_add(i32_specs::signed_crop(a), i32_specs::signed_crop(b)) as int;
    let kw: int = if ca + cb > i32::MAX as int {
        ka + kb + 1
    } else if ca + cb < i32::MIN as int {
        ka + kb - 1
    } else {
        ka + kb
    };
    assert(w == (a + b) - r * kw);
    lemma_crop_unique(a + b, w, kw);
}

/// The 32-bit image of a byte count, computed without overflow: what
/// `n as i32` would yield under a truncating cast.
pub fn crop_len(n: usize) -> (r: i32)
    ensures
        r == i32_specs::signed_crop(n as int),
{
    let m: u64 = (n as u64) % 0x1_0000_0000;
    if m >= 0x8000_0000 {
        let v: i32 = ((m as i64) - 0x1_0000_0000) as i32;
        proof {
            lemma_fundamental_div_mod(n as int, 0x1_0000_0000);
            lemma_crop_unique(n as int, v as int, (n as int) / 0x1_0000_0000 + 1);
        }
        v
    } else {
        let v: i32 = m as i32;
        proof {
            lemma_fundamental_div_mod(n as int, 0x1_0000_0000);
            lemma_crop_unique(n as int, v as int, (n as int) / 0x1_0000_0000);
        }
        v
    }
}

} // verus!
