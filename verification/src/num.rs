//! Integer helpers shared by the parsers and the counter arithmetic.
use vstd::prelude::*;

verus! {

/// `value` held to at most `limit`.
pub open spec fn capped(value: int, limit: int) -> int {
    if value > limit {
        limit
    } else {
        value
    }
}

/// The smaller of two integers.
pub open spec fn min_int(a: int, b: int) -> int {
    if a <= b {
        a
    } else {
        b
    }
}

/// Multiplies two sizes, stopping at the largest one instead of wrapping.
pub fn saturating_mul(a: usize, b: usize) -> (product: usize)
    ensures
        product == capped(a * b, usize::MAX as int),
{
    match a.checked_mul(b) {
        Some(product) => product,
        None => usize::MAX,
    }
}

/// Multiplies two counter values, stopping at the largest one instead of
/// wrapping.
pub fn saturating_mul_u64(a: u64, b: u64) -> (product: u64)
    ensures
        product == capped(a * b, u64::MAX as int),
{
    match a.checked_mul(b) {
        Some(product) => product,
        None => u64::MAX,
    }
}

/// The smaller of two sizes.
pub fn min_usize(a: usize, b: usize) -> (least: usize)
    ensures
        least == min_int(a as int, b as int),
{
    if a <= b {
        a
    } else {
        b
    }
}

/// How many whole bytes `bits` bits take.
pub open spec fn bytes_for_bits(bits: int) -> int {
    (bits + 7) / 8
}

/// Counts the bytes that hold `bits` bits.
pub fn div_ceil_8(bits: usize) -> (bytes: usize)
    ensures
        bytes == bytes_for_bits(bits as int),
{
    if bits % 8 == 0 {
        bits / 8
    } else {
        bits / 8 + 1
    }
}

} // verus!
