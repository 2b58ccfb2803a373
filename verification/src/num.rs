//! Integer helpers whose specification is the function itself.
use vstd::prelude::*;

verus! {

/// The larger of two byte or nanosecond counts.
#[verifier::allow_in_spec]
pub fn max_u64(a: u64, b: u64) -> u64
    returns
        (if a >= b { a } else { b }),
{
    if a >= b {
        a
    } else {
        b
    }
}

/// The smaller of two byte or nanosecond counts.
#[verifier::allow_in_spec]
pub fn min_u64(a: u64, b: u64) -> u64
    returns
        (if a <= b { a } else { b }),
{
    if a <= b {
        a
    } else {
        b
    }
}

#[verifier::allow_in_spec]
pub fn max_u32(a: u32, b: u32) -> u32
    returns
        (if a >= b { a } else { b }),
{
    if a >= b {
        a
    } else {
        b
    }
}

#[verifier::allow_in_spec]
pub fn min_u32(a: u32, b: u32) -> u32
    returns
        (if a <= b { a } else { b }),
{
    if a <= b {
        a
    } else {
        b
    }
}

#[verifier::allow_in_spec]
pub fn max_u16(a: u16, b: u16) -> u16
    returns
        (if a >= b { a } else { b }),
{
    if a >= b {
        a
    } else {
        b
    }
}

#[verifier::allow_in_spec]
pub fn min_u16(a: u16, b: u16) -> u16
    returns
        (if a <= b { a } else { b }),
{
    if a <= b {
        a
    } else {
        b
    }
}

#[verifier::allow_in_spec]
pub fn max_u8(a: u8, b: u8) -> u8
    returns
        (if a >= b { a } else { b }),
{
    if a >= b {
        a
    } else {
        b
    }
}

/// Product clamped to `u64::MAX`.
#[verifier::allow_in_spec]
pub fn mul_sat(a: u64, b: u64) -> u64
    returns
        (if a * b > u64::MAX { u64::MAX } else { (a * b) as u64 }),
{
    match a.checked_mul(b) {
        Some(v) => v,
        None => u64::MAX,
    }
}

/// `a * b / c` clamped to `u64::MAX`, rounded up or down.
#[verifier::allow_in_spec]
pub fn mul_div_sat(a: u64, b: u64, c: u64, up: bool) -> u64
    returns
        ({
            let n: int = a * b + if up {
                c - 1
            } else {
                0
            };
            let q: int = n / (c as int);
            if c == 0 || q > u64::MAX {
                u64::MAX
            } else {
                q as u64
            }
        }),
{
    if c == 0 {
        return u64::MAX;
    }
    assert(a * b <= u64::MAX * u64::MAX) by (nonlinear_arith)
        requires
            a <= u64::MAX,
            b <= u64::MAX,
    ;
    let p: u128 = a as u128 * b as u128;
    let n: u128 = if up {
        p + (c - 1) as u128
    } else {
        p
    };
    let q: u128 = n / c as u128;
    if q > u64::MAX as u128 {
        u64::MAX
    } else {
        q as u64
    }
}

/// Length as a `u32`, clamped to `u32::MAX`.
#[verifier::allow_in_spec]
pub fn clamp_u32(n: usize) -> u32
    returns
        (if n > u32::MAX { u32::MAX } else { n as u32 }),
{
    if n > u32::MAX as usize {
        u32::MAX
    } else {
        n as u32
    }
}

/// `0` or `1`.
#[verifier::allow_in_spec]
pub fn bit(b: bool) -> u64
    returns
        (if b { 1u64 } else { 0u64 }),
{
    if b {
        1
    } else {
        0
    }
}

} // verus!
