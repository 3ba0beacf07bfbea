//! The arithmetic of the integer instructions.

use vstd::prelude::*;
use vstd::std_specs::bits::{
    axiom_u32_leading_zeros,
    axiom_u32_trailing_zeros,
    axiom_u64_leading_zeros,
    axiom_u64_trailing_zeros,
    u32_leading_zeros,
    u32_trailing_zeros,
    u64_leading_zeros,
    u64_trailing_zeros,
};
use crate::exec::error::ExecutionError;

verus! {

/// The 32-bit pattern of `v`, read as unsigned.
pub open spec fn u32_of(v: i32) -> u32 {
    if v >= 0 {
        v as u32
    } else {
        (v + 0x1_0000_0000) as u32
    }
}

/// The 32-bit pattern of `v`, read as signed.
pub open spec fn i32_of(v: u32) -> i32 {
    if v <= 0x7FFF_FFFF {
        v as i32
    } else {
        (v - 0x1_0000_0000) as i32
    }
}

/// The 64-bit pattern of `v`, read as unsigned.
pub open spec fn u64_of(v: i64) -> u64 {
    if v >= 0 {
        v as u64
    } else {
        (v + 0x1_0000_0000_0000_0000) as u64
    }
}

/// The 64-bit pattern of `v`, read as signed.
pub open spec fn i64_of(v: u64) -> i64 {
    if v <= 0x7FFF_FFFF_FFFF_FFFF {
        v as i64
    } else {
        (v - 0x1_0000_0000_0000_0000) as i64
    }
}

/// Reads the bits of a signed 32-bit number as unsigned.
pub fn i32_to_u32(v: i32) -> (r: u32)
    ensures
        r == u32_of(v),
{
    if v >= 0 {
        v as u32
    } else {
        (v as i64 + 0x1_0000_0000) as u32
    }
}

/// Reads the bits of an unsigned 32-bit number as signed.
pub fn u32_to_i32(v: u32) -> (r: i32)
    ensures
        r == i32_of(v),
{
    if v <= 0x7FFF_FFFF {
        v as i32
    } else {
        (v as i64 - 0x1_0000_0000) as i32
    }
}

/// Reads the bits of a signed 64-bit number as unsigned.
pub fn i64_to_u64(v: i64) -> (r: u64)
    ensures
        r == u64_of(v),
{
    if v >= 0 {
        v as u64
    } else {
        (v as i128 + 0x1_0000_0000_0000_0000) as u64
    }
}

/// Reads the bits of an unsigned 64-bit number as signed.
pub fn u64_to_i64(v: u64) -> (r: i64)
    ensures
        r == i64_of(v),
{
    if v <= 0x7FFF_FFFF_FFFF_FFFF {
        v as i64
    } else {
        (v as i128 - 0x1_0000_0000_0000_0000) as i64
    }
}

/// Reading a pattern as unsigned and back as signed gives the number again.
pub proof fn lemma_u32_round_trip(v: i32)
    ensures
        i32_of(u32_of(v)) == v,
{
}

/// Reading a pattern as unsigned and back as signed gives the number again.
pub proof fn lemma_u64_round_trip(v: i64)
    ensures
        i64_of(u64_of(v)) == v,
{
}

/// 1 for a condition that holds, 0 for one that does not.
pub open spec fn flag(b: bool) -> i32 {
    if b {
        1
    } else {
        0
    }
}

/// Turns a condition into the number that the comparisons push.
pub fn flag_of(b: bool) -> (r: i32)
    ensures
        r == flag(b),
{
    if b {
        1
    } else {
        0
    }
}

/// The quotient of `x` by `d`, rounded towards zero.
pub open spec fn trunc_div(x: int, d: int) -> int {
    if x == 0 {
        0
    } else if x > 0 && d > 0 {
        x / d
    } else if x < 0 && d < 0 {
        (-x) / (-d)
    } else if x < 0 {
        -((-x) / d)
    } else {
        -(x / (-d))
    }
}

/// The remainder of `x` by `d` that goes with `trunc_div`: it has the sign
/// of `x`.
pub open spec fn trunc_rem(x: int, d: int) -> int {
    if x == 0 {
        0
    } else if x > 0 && d > 0 {
        x % d
    } else if x < 0 && d < 0 {
        -((-x) % (-d))
    } else if x < 0 {
        -((-x) % d)
    } else {
        x % (-d)
    }
}

/// The number of bits that are set in `x`.
pub open spec fn popcount(x: nat) -> nat
    decreases x,
{
    if x == 0 {
        0
    } else {
        (x % 2) + popcount(x / 2)
    }
}

/// Whether `x` has no bit set beyond its lowest `k` bits.
pub open spec fn fits_bits(x: nat, k: nat) -> bool
    decreases k,
{
    if k == 0 {
        x == 0
    } else {
        fits_bits(x / 2, (k - 1) as nat)
    }
}

/// A number of at most `k` bits has at most `k` bits set.
pub proof fn lemma_popcount_bound(x: nat, k: nat)
    requires
        fits_bits(x, k),
    ensures
        popcount(x) <= k,
    decreases k,
{
    if k > 0 {
        lemma_popcount_bound(x / 2, (k - 1) as nat);
    }
}

/// A 64-bit number has at most 64 bits.
pub proof fn lemma_u64_fits(x: u64)
    ensures
        fits_bits(x as nat, 64),
{
    reveal_with_fuel(fits_bits, 65);
}

/// Counts the bits that are set in `x`.
pub fn count_ones(x: u64) -> (r: u32)
    ensures
        r == popcount(x as nat),
        r <= 64,
{
    let mut rest: u64 = x;
    let mut count: u64 = 0;
    while rest > 0
        invariant
            count + popcount(rest as nat) == popcount(x as nat),
            count + rest <= x,
        decreases rest,
    {
        count = count + rest % 2;
        rest = rest / 2;
    }
    proof {
        lemma_u64_fits(x);
        lemma_popcount_bound(x as nat, 64);
    }
    count as u32
}

/// `x` rotated left by `k` bits, within 32 bits.
pub open spec fn rotl32(x: u32, k: u32) -> u32 {
    if k % 32 == 0 {
        x
    } else {
        (x << (k % 32)) | (x >> ((32 - k % 32) as u32))
    }
}

/// `x` rotated right by `k` bits, within 32 bits.
pub open spec fn rotr32(x: u32, k: u32) -> u32 {
    if k % 32 == 0 {
        x
    } else {
        (x >> (k % 32)) | (x << ((32 - k % 32) as u32))
    }
}

/// `x` rotated left by `k` bits, within 64 bits.
pub open spec fn rotl64(x: u64, k: u64) -> u64 {
    if k % 64 == 0 {
        x
    } else {
        (x << (k % 64)) | (x >> ((64 - k % 64) as u64))
    }
}

/// `x` rotated right by `k` bits, within 64 bits.
pub open spec fn rotr64(x: u64, k: u64) -> u64 {
    if k % 64 == 0 {
        x
    } else {
        (x >> (k % 64)) | (x << ((64 - k % 64) as u64))
    }
}

/// Rotates `x` left by `k` bits.
pub fn rotate_left_32(x: u32, k: u32) -> (r: u32)
    ensures
        r == rotl32(x, k),
{
    let s: u32 = k % 32;
    if s == 0 {
        x
    } else {
        (x << s) | (x >> (32 - s))
    }
}

/// Rotates `x` right by `k` bits.
pub fn rotate_right_32(x: u32, k: u32) -> (r: u32)
    ensures
        r == rotr32(x, k),
{
    let s: u32 = k % 32;
    if s == 0 {
        x
    } else {
        (x >> s) | (x << (32 - s))
    }
}

/// Rotates `x` left by `k` bits.
pub fn rotate_left_64(x: u64, k: u64) -> (r: u64)
    ensures
        r == rotl64(x, k),
{
    let s: u64 = k % 64;
    if s == 0 {
        x
    } else {
        (x << s) | (x >> (64 - s))
    }
}

/// Rotates `x` right by `k` bits.
pub fn rotate_right_64(x: u64, k: u64) -> (r: u64)
    ensures
        r == rotr64(x, k),
{
    let s: u64 = k % 64;
    if s == 0 {
        x
    } else {
        (x >> s) | (x << (64 - s))
    }
}

/// The number of zero bits above the highest bit that is set in the 32-bit
/// pattern of `x`; 32 for zero.
pub open spec fn clz32(x: i32) -> i32 {
    u32_leading_zeros(u32_of(x)) as i32
}

/// The number of zero bits below the lowest bit that is set in the 32-bit
/// pattern of `x`; 32 for zero.
pub open spec fn ctz32(x: i32) -> i32 {
    u32_trailing_zeros(u32_of(x)) as i32
}

/// The number of bits that are set in the 32-bit pattern of `x`.
pub open spec fn popcnt32(x: i32) -> i32 {
    popcount(u32_of(x) as nat) as i32
}

/// As `clz32`, for 64 bits.
pub open spec fn clz64(x: i64) -> i64 {
    u64_leading_zeros(u64_of(x)) as i64
}

/// As `ctz32`, for 64 bits.
pub open spec fn ctz64(x: i64) -> i64 {
    u64_trailing_zeros(u64_of(x)) as i64
}

/// As `popcnt32`, for 64 bits.
pub open spec fn popcnt64(x: i64) -> i64 {
    popcount(u64_of(x) as nat) as i64
}

/// Counts the leading zero bits.
pub fn count_leading_zeros_32(x: i32) -> (r: i32)
    ensures
        r == clz32(x),
{
    let u = i32_to_u32(x);
    proof {
        axiom_u32_leading_zeros(u);
    }
    u.leading_zeros() as i32
}

/// Counts the trailing zero bits.
pub fn count_trailing_zeros_32(x: i32) -> (r: i32)
    ensures
        r == ctz32(x),
{
    let u = i32_to_u32(x);
    proof {
        axiom_u32_trailing_zeros(u);
    }
    u.trailing_zeros() as i32
}

/// Counts the bits that are set.
pub fn count_ones_32(x: i32) -> (r: i32)
    ensures
        r == popcnt32(x),
{
    count_ones(i32_to_u32(x) as u64) as i32
}

/// Counts the leading zero bits.
pub fn count_leading_zeros_64(x: i64) -> (r: i64)
    ensures
        r == clz64(x),
{
    let u = i64_to_u64(x);
    proof {
        axiom_u64_leading_zeros(u);
    }
    u.leading_zeros() as i64
}

/// Counts the trailing zero bits.
pub fn count_trailing_zeros_64(x: i64) -> (r: i64)
    ensures
        r == ctz64(x),
{
    let u = i64_to_u64(x);
    proof {
        axiom_u64_trailing_zeros(u);
    }
    u.trailing_zeros() as i64
}

/// Counts the bits that are set.
pub fn count_ones_64(x: i64) -> (r: i64)
    ensures
        r == popcnt64(x),
{
    count_ones(i64_to_u64(x)) as i64
}

/// The signed quotient of `x` by `y`, where `least` is the least number of
/// their type: division by zero and the division of the least number by -1
/// trap.
pub open spec fn div_s(x: int, y: int, least: int) -> Result<int, ExecutionError> {
    if y == 0 {
        Err(ExecutionError::DivideByZero)
    } else if x == least && y == -1 {
        Err(ExecutionError::IntegerOverflow)
    } else {
        Ok(trunc_div(x, y))
    }
}

/// The signed remainder: the remainder by zero traps; that of the least
/// number by -1 is 0.
pub open spec fn rem_s(x: int, y: int) -> Result<int, ExecutionError> {
    if y == 0 {
        Err(ExecutionError::DivideByZero)
    } else if y == -1 {
        Ok(0)
    } else {
        Ok(trunc_rem(x, y))
    }
}

/// The unsigned quotient: division by zero traps.
pub open spec fn div_u(x: int, y: int) -> Result<int, ExecutionError> {
    if y == 0 {
        Err(ExecutionError::DivideByZero)
    } else {
        Ok(x / y)
    }
}

/// The unsigned remainder: the remainder by zero traps.
pub open spec fn rem_u(x: int, y: int) -> Result<int, ExecutionError> {
    if y == 0 {
        Err(ExecutionError::DivideByZero)
    } else {
        Ok(x % y)
    }
}

/// The value of the lowest bits of `value`, below `modulus`, read as signed.
pub open spec fn extend_s(value: int, modulus: int) -> int {
    if value % modulus >= modulus / 2 {
        value % modulus - modulus
    } else {
        value % modulus
    }
}

/// The quotient rounded towards zero is no greater in magnitude than the
/// dividend.
pub proof fn lemma_trunc_div_bounds(x: int, d: int)
    requires
        d != 0,
    ensures
        x >= 0 ==> -x <= trunc_div(x, d) <= x,
        x < 0 ==> x <= trunc_div(x, d) <= -x,
        x < 0 && d < -1 ==> trunc_div(x, d) < -x,
{
    if x > 0 && d > 0 {
        assert(0 <= x / d <= x) by (nonlinear_arith)
            requires
                x > 0,
                d > 0,
        ;
    } else if x < 0 && d < 0 {
        assert(0 <= (-x) / (-d) <= -x && (d < -1 ==> (-x) / (-d) < -x)) by (nonlinear_arith)
            requires
                x < 0,
                d < 0,
        ;
    } else if x < 0 {
        assert(0 <= (-x) / d <= -x) by (nonlinear_arith)
            requires
                x < 0,
                d > 0,
        ;
    } else if x > 0 {
        assert(0 <= x / (-d) <= x) by (nonlinear_arith)
            requires
                x > 0,
                d < 0,
        ;
    }
}

/// `i32.div_s`.
pub open spec fn div_s32(x: i32, y: i32) -> Result<i32, ExecutionError> {
    match div_s(x as int, y as int, i32::MIN as int) {
        Ok(q) => Ok(q as i32),
        Err(e) => Err(e),
    }
}

/// `i32.rem_s`.
pub open spec fn rem_s32(x: i32, y: i32) -> Result<i32, ExecutionError> {
    match rem_s(x as int, y as int) {
        Ok(q) => Ok(q as i32),
        Err(e) => Err(e),
    }
}

/// `i32.div_u`.
pub open spec fn div_u32(x: i32, y: i32) -> Result<i32, ExecutionError> {
    match div_u(u32_of(x) as int, u32_of(y) as int) {
        Ok(q) => Ok(i32_of(q as u32)),
        Err(e) => Err(e),
    }
}

/// `i32.rem_u`.
pub open spec fn rem_u32(x: i32, y: i32) -> Result<i32, ExecutionError> {
    match rem_u(u32_of(x) as int, u32_of(y) as int) {
        Ok(q) => Ok(i32_of(q as u32)),
        Err(e) => Err(e),
    }
}

/// `i64.div_s`.
pub open spec fn div_s64(x: i64, y: i64) -> Result<i64, ExecutionError> {
    match div_s(x as int, y as int, i64::MIN as int) {
        Ok(q) => Ok(q as i64),
        Err(e) => Err(e),
    }
}

/// `i64.rem_s`.
pub open spec fn rem_s64(x: i64, y: i64) -> Result<i64, ExecutionError> {
    match rem_s(x as int, y as int) {
        Ok(q) => Ok(q as i64),
        Err(e) => Err(e),
    }
}

/// `i64.div_u`.
pub open spec fn div_u64(x: i64, y: i64) -> Result<i64, ExecutionError> {
    match div_u(u64_of(x) as int, u64_of(y) as int) {
        Ok(q) => Ok(i64_of(q as u64)),
        Err(e) => Err(e),
    }
}

/// `i64.rem_u`.
pub open spec fn rem_u64(x: i64, y: i64) -> Result<i64, ExecutionError> {
    match rem_u(u64_of(x) as int, u64_of(y) as int) {
        Ok(q) => Ok(i64_of(q as u64)),
        Err(e) => Err(e),
    }
}

/// Divides as `i32.div_s` does.
pub fn divide_s32(x: i32, y: i32) -> (r: Result<i32, ExecutionError>)
    ensures
        r == div_s32(x, y),
{
    if y == 0 {
        Err(ExecutionError::DivideByZero)
    } else if x == i32::MIN && y == -1 {
        Err(ExecutionError::IntegerOverflow)
    } else {
        proof {
            lemma_trunc_div_bounds(x as int, y as int);
        }
        match x.checked_div(y) {
            Some(q) => Ok(q),
            None => Err(ExecutionError::IntegerOverflow),
        }
    }
}

/// Takes the remainder as `i32.rem_s` does.
pub fn remainder_s32(x: i32, y: i32) -> (r: Result<i32, ExecutionError>)
    ensures
        r == rem_s32(x, y),
{
    if y == 0 {
        Err(ExecutionError::DivideByZero)
    } else if y == -1 {
        Ok(0)
    } else {
        match x.checked_rem(y) {
            Some(q) => Ok(q),
            None => Ok(0),
        }
    }
}

/// Divides as `i32.div_u` does.
pub fn divide_u32(x: i32, y: i32) -> (r: Result<i32, ExecutionError>)
    ensures
        r == div_u32(x, y),
{
    let ux = i32_to_u32(x);
    let uy = i32_to_u32(y);
    if uy == 0 {
        Err(ExecutionError::DivideByZero)
    } else {
        Ok(u32_to_i32(ux / uy))
    }
}

/// Takes the remainder as `i32.rem_u` does.
pub fn remainder_u32(x: i32, y: i32) -> (r: Result<i32, ExecutionError>)
    ensures
        r == rem_u32(x, y),
{
    let ux = i32_to_u32(x);
    let uy = i32_to_u32(y);
    if uy == 0 {
        Err(ExecutionError::DivideByZero)
    } else {
        Ok(u32_to_i32(ux % uy))
    }
}

/// Divides as `i64.div_s` does.
pub fn divide_s64(x: i64, y: i64) -> (r: Result<i64, ExecutionError>)
    ensures
        r == div_s64(x, y),
{
    if y == 0 {
        Err(ExecutionError::DivideByZero)
    } else if x == i64::MIN && y == -1 {
        Err(ExecutionError::IntegerOverflow)
    } else {
        proof {
            lemma_trunc_div_bounds(x as int, y as int);
        }
        match x.checked_div(y) {
            Some(q) => Ok(q),
            None => Err(ExecutionError::IntegerOverflow),
        }
    }
}

/// Takes the remainder as `i64.rem_s` does.
pub fn remainder_s64(x: i64, y: i64) -> (r: Result<i64, ExecutionError>)
    ensures
        r == rem_s64(x, y),
{
    if y == 0 {
        Err(ExecutionError::DivideByZero)
    } else if y == -1 {
        Ok(0)
    } else {
        match x.checked_rem(y) {
            Some(q) => Ok(q),
            None => Ok(0),
        }
    }
}

/// Divides as `i64.div_u` does.
pub fn divide_u64(x: i64, y: i64) -> (r: Result<i64, ExecutionError>)
    ensures
        r == div_u64(x, y),
{
    let ux = i64_to_u64(x);
    let uy = i64_to_u64(y);
    if uy == 0 {
        Err(ExecutionError::DivideByZero)
    } else {
        Ok(u64_to_i64(ux / uy))
    }
}

/// Takes the remainder as `i64.rem_u` does.
pub fn remainder_u64(x: i64, y: i64) -> (r: Result<i64, ExecutionError>)
    ensures
        r == rem_u64(x, y),
{
    let ux = i64_to_u64(x);
    let uy = i64_to_u64(y);
    if uy == 0 {
        Err(ExecutionError::DivideByZero)
    } else {
        Ok(u64_to_i64(ux % uy))
    }
}

/// Reads the lowest bits of `x`, below `modulus`, as a signed number.
pub fn sign_extend_32(x: i32, modulus: u32) -> (r: i32)
    requires
        modulus == 0x100 || modulus == 0x1_0000,
    ensures
        r == extend_s(u32_of(x) as int, modulus as int),
{
    let low = i32_to_u32(x) % modulus;
    if low >= modulus / 2 {
        (low as i64 - modulus as i64) as i32
    } else {
        low as i32
    }
}

/// Reads the lowest bits of `x`, below `modulus`, as a signed number.
pub fn sign_extend_64(x: i64, modulus: u64) -> (r: i64)
    requires
        modulus == 0x100 || modulus == 0x1_0000 || modulus == 0x1_0000_0000,
    ensures
        r == extend_s(u64_of(x) as int, modulus as int),
{
    let low = i64_to_u64(x) % modulus;
    if low >= modulus / 2 {
        (low as i128 - modulus as i128) as i64
    } else {
        low as i64
    }
}

} // verus!
