//! LEB128 variable-length integers.
//!
//! The numbers are read by the `leb128` crate; this module states what a
//! read yields and narrows the result to the width of the field.

use vstd::prelude::*;
use crate::parse::error::ParsingError;

verus! {

/// The position just behind the LEB128 number that starts at `pos`: behind
/// the first byte at or after `pos` whose high bit is clear.  `None` where
/// every byte from `pos` on has its high bit set.
pub open spec fn leb_end(bytes: Seq<u8>, pos: int) -> Option<int>
    decreases bytes.len() - pos,
{
    if pos < 0 || pos >= bytes.len() {
        None
    } else if bytes[pos] < 128 {
        Some(pos + 1)
    } else {
        leb_end(bytes, pos + 1)
    }
}

/// The unsigned number that the bytes in `[from, to)` spell: seven bits per
/// byte, least significant group first.
pub open spec fn uleb_value(bytes: Seq<u8>, from: int, to: int) -> nat
    decreases to - from,
{
    if from >= to {
        0
    } else {
        (bytes[from] % 128) as nat + 128 * uleb_value(bytes, from + 1, to)
    }
}

/// The signed number that the bytes in `[from, to)` spell: as `uleb_value`,
/// with bit 6 of the last byte as the sign.
pub open spec fn sleb_value(bytes: Seq<u8>, from: int, to: int) -> int
    decreases to - from,
{
    if from >= to {
        0
    } else if from + 1 == to {
        if bytes[from] % 128 >= 64 {
            bytes[from] % 128 - 128
        } else {
            (bytes[from] % 128) as int
        }
    } else {
        bytes[from] % 128 + 128 * sleb_value(bytes, from + 1, to)
    }
}

/// An unsigned 64-bit number at `pos`, with the position behind it.  There
/// is one where the number ends within ten bytes and, if it takes all ten,
/// the last byte is 0 or 1.
pub open spec fn uleb64(bytes: Seq<u8>, pos: int) -> Option<(u64, int)> {
    match leb_end(bytes, pos) {
        Some(end) => if end - pos <= 9 || (end - pos == 10 && bytes[end - 1] <= 1) {
            Some((uleb_value(bytes, pos, end) as u64, end))
        } else {
            None
        },
        None => None,
    }
}

/// A signed 64-bit number at `pos`, with the position behind it.  There is
/// one where the number ends within ten bytes and, if it takes all ten, the
/// last byte is `0x00` or `0x7F`.
pub open spec fn sleb64(bytes: Seq<u8>, pos: int) -> Option<(i64, int)> {
    match leb_end(bytes, pos) {
        Some(end) => if end - pos <= 9 || (end - pos == 10 && (bytes[end - 1] == 0
            || bytes[end - 1] == 0x7F)) {
            Some((sleb_value(bytes, pos, end) as i64, end))
        } else {
            None
        },
        None => None,
    }
}

/// The error of the `leb128` crate's reads; only its presence is used.
#[verifier::external_type_specification]
#[verifier::external_body]
pub struct ExLeb128Error(leb128::read::Error);

/// `leb128::read::unsigned` on the bytes from `pos` on.  Returns the number
/// together with the count of bytes that the read left over.  The contract
/// claims that the call succeeds exactly where `uleb64` has a value, that it
/// then returns that value and has consumed the bytes up to the position that
/// `uleb64` gives.
#[verifier::external_body]
fn leb128_read_unsigned(bytes: &[u8], pos: usize) -> (r: Result<(u64, usize), leb128::read::Error>)
    requires
        pos <= bytes@.len(),
    ensures
        match r {
            Ok((value, left)) => uleb64(bytes@, pos as int) == Some((value, bytes@.len() - left)),
            Err(_) => uleb64(bytes@, pos as int) is None,
        },
{
    let mut rest: &[u8] = &bytes[pos..];
    let value = leb128::read::unsigned(&mut rest)?;
    Ok((value, rest.len()))
}

/// `leb128::read::signed` on the bytes from `pos` on.  Returns the number
/// together with the count of bytes that the read left over.  The contract
/// claims that the call succeeds exactly where `sleb64` has a value, that it
/// then returns that value and has consumed the bytes up to the position that
/// `sleb64` gives.
#[verifier::external_body]
fn leb128_read_signed(bytes: &[u8], pos: usize) -> (r: Result<(i64, usize), leb128::read::Error>)
    requires
        pos <= bytes@.len(),
    ensures
        match r {
            Ok((value, left)) => sleb64(bytes@, pos as int) == Some((value, bytes@.len() - left)),
            Err(_) => sleb64(bytes@, pos as int) is None,
        },
{
    let mut rest: &[u8] = &bytes[pos..];
    let value = leb128::read::signed(&mut rest)?;
    Ok((value, rest.len()))
}

/// The end of a number lies behind its start and within the bytes.
pub proof fn lemma_leb_end_bounds(bytes: Seq<u8>, pos: int)
    ensures
        leb_end(bytes, pos) matches Some(end) ==> 0 <= pos < end <= bytes.len(),
    decreases bytes.len() - pos,
{
    if 0 <= pos < bytes.len() && bytes[pos] >= 128 {
        lemma_leb_end_bounds(bytes, pos + 1);
    }
}

/// 128 to the power `n`.
pub open spec fn radix(n: nat) -> nat
    decreases n,
{
    if n == 0 {
        1
    } else {
        128 * radix((n - 1) as nat)
    }
}

/// The bytes in `[from, to)` spell a number below 128 to the power of their
/// count, and the last byte is its most significant group.
pub proof fn lemma_uleb_value_bound(bytes: Seq<u8>, from: int, to: int)
    requires
        0 <= from <= to <= bytes.len(),
    ensures
        uleb_value(bytes, from, to) < radix((to - from) as nat),
        from < to ==> uleb_value(bytes, from, to) == uleb_value(bytes, from, to - 1) + radix(
            (to - 1 - from) as nat,
        ) * (bytes[to - 1] % 128),
    decreases to - from,
{
    if from < to {
        lemma_uleb_value_bound(bytes, from + 1, to);
        let first = (bytes[from] % 128) as nat;
        let rest = uleb_value(bytes, from + 1, to);
        let scale = radix((to - from - 1) as nat);
        assert(uleb_value(bytes, from, to) == first + 128 * rest);
        assert(radix((to - from) as nat) == 128 * scale);
        assert(first + 128 * rest < 128 * scale) by (nonlinear_arith)
            requires
                rest < scale,
                first < 128,
        ;
        let top = (bytes[to - 1] % 128) as nat;
        if from + 1 < to {
            let shorter = uleb_value(bytes, from + 1, to - 1);
            let below = radix((to - 2 - from) as nat);
            assert(rest == shorter + below * top);
            assert(scale == 128 * below);
            assert(uleb_value(bytes, from, to - 1) == first + 128 * shorter);
            assert(128 * (shorter + below * top) == 128 * shorter + (128 * below) * top)
                by (nonlinear_arith);
        } else {
            assert(rest == 0);
            assert(uleb_value(bytes, from, to - 1) == 0);
            assert(scale == 1);
            assert(scale * top == top) by (nonlinear_arith)
                requires
                    scale == 1,
            ;
        }
    }
}

/// The signed number that the bytes in `[from, to)` spell is the unsigned
/// one, less 128 to the power of their count where the sign bit is set.
pub proof fn lemma_sleb_value(bytes: Seq<u8>, from: int, to: int)
    requires
        0 <= from < to <= bytes.len(),
    ensures
        sleb_value(bytes, from, to) == uleb_value(bytes, from, to) - if bytes[to - 1] % 128 >= 64 {
            radix((to - from) as nat) as int
        } else {
            0
        },
    decreases to - from,
{
    if from + 1 < to {
        lemma_sleb_value(bytes, from + 1, to);
    } else {
        assert(uleb_value(bytes, from + 1, to) == 0);
        assert(radix(1) == 128) by {
            reveal_with_fuel(radix, 2);
        }
    }
}

/// The numbers that `uleb64` and `sleb64` give fit 64 bits: the value that
/// the bytes spell is the value returned.
pub proof fn lemma_leb64_exact(bytes: Seq<u8>, pos: int)
    ensures
        uleb64(bytes, pos) matches Some((value, end)) ==> value == uleb_value(bytes, pos, end),
        sleb64(bytes, pos) matches Some((value, end)) ==> value == sleb_value(bytes, pos, end),
{
    lemma_leb_end_bounds(bytes, pos);
    match leb_end(bytes, pos) {
        Some(end) => {
            let count = (end - pos) as nat;
            if count <= 10 {
                lemma_uleb_value_bound(bytes, pos, end);
                lemma_uleb_value_bound(bytes, pos, end - 1);
                lemma_sleb_value(bytes, pos, end);
                assert(radix(9) == 0x8000_0000_0000_0000) by {
                    reveal_with_fuel(radix, 10);
                }
                let top = (bytes[end - 1] % 128) as int;
                let low = uleb_value(bytes, pos, end - 1) as int;
                let scale = radix((count - 1) as nat) as int;
                assert(radix(count) == 128 * scale);
                if count <= 9 {
                    lemma_radix_monotonic((count - 1) as nat, 8);
                    assert(radix(8) == 0x100_0000_0000_0000) by {
                        reveal_with_fuel(radix, 9);
                    }
                    assert(0 <= low + scale * top < 128 * scale && (top >= 64 ==> low + scale * top
                        - 128 * scale >= -(64 * scale)) && (top < 64 ==> low + scale * top < 64
                        * scale)) by (nonlinear_arith)
                        requires
                            0 <= low < scale,
                            0 <= top < 128,
                    ;
                } else {
                    assert(scale * 1 == scale && scale * 0 == 0 && scale * 127 == 127 * scale)
                        by (nonlinear_arith);
                }
            }
        },
        None => {},
    }
}

/// `radix` is positive.
pub proof fn lemma_radix_positive(n: nat)
    ensures
        radix(n) >= 1,
    decreases n,
{
    if n > 0 {
        lemma_radix_positive((n - 1) as nat);
    }
}

/// `radix` grows with its argument.
pub proof fn lemma_radix_monotonic(a: nat, b: nat)
    requires
        a <= b,
    ensures
        radix(a) <= radix(b),
    decreases b,
{
    if a < b {
        lemma_radix_monotonic(a, (b - 1) as nat);
        lemma_radix_positive((b - 1) as nat);
    }
}

/// What decoding yields: the value and the position behind it, or the error.
pub type Decoded<T> = Result<(T, int), ParsingError>;

/// An unsigned 64-bit LEB128 number at `pos`.
pub open spec fn spec_read_u64(bytes: Seq<u8>, pos: int) -> Decoded<u64> {
    match uleb64(bytes, pos) {
        Some(found) => Ok(found),
        None => Err(ParsingError::Leb128),
    }
}

/// An unsigned 32-bit LEB128 number at `pos`: at most five bytes long, and
/// below 2^32.
pub open spec fn spec_read_u32(bytes: Seq<u8>, pos: int) -> Decoded<u32> {
    match uleb64(bytes, pos) {
        Some((value, end)) => if end - pos <= 5 && value <= u32::MAX {
            Ok((value as u32, end))
        } else {
            Err(ParsingError::Leb128)
        },
        None => Err(ParsingError::Leb128),
    }
}

/// A signed 64-bit LEB128 number at `pos`.
pub open spec fn spec_read_i64(bytes: Seq<u8>, pos: int) -> Decoded<i64> {
    match sleb64(bytes, pos) {
        Some(found) => Ok(found),
        None => Err(ParsingError::Leb128),
    }
}

/// A signed 32-bit LEB128 number at `pos`: at most five bytes long, and
/// within the range of `i32`.
pub open spec fn spec_read_i32(bytes: Seq<u8>, pos: int) -> Decoded<i32> {
    match sleb64(bytes, pos) {
        Some((value, end)) => if end - pos <= 5 && i32::MIN <= value <= i32::MAX {
            Ok((value as i32, end))
        } else {
            Err(ParsingError::Leb128)
        },
        None => Err(ParsingError::Leb128),
    }
}

/// Tells that the executable result `r` is what the model `d` prescribes.
pub open spec fn decoded<T>(r: Result<(T, usize), ParsingError>, d: Decoded<T>) -> bool {
    match (r, d) {
        (Ok((value, end)), Ok((model, model_end))) => value == model && end == model_end,
        (Err(e), Err(model)) => e == model,
        _ => false,
    }
}

/// Reads an unsigned 64-bit LEB128 number.
pub fn read_u64(bytes: &[u8], pos: usize) -> (r: Result<(u64, usize), ParsingError>)
    ensures
        decoded(r, spec_read_u64(bytes@, pos as int)),
        r matches Ok((_, end)) ==> pos < end <= bytes@.len(),
{
    if pos > bytes.len() {
        return Err(ParsingError::Leb128);
    }
    proof {
        lemma_leb_end_bounds(bytes@, pos as int);
    }
    match leb128_read_unsigned(bytes, pos) {
        Ok((value, left)) => Ok((value, bytes.len() - left)),
        Err(_) => Err(ParsingError::Leb128),
    }
}

/// Reads an unsigned 32-bit LEB128 number.
pub fn read_u32(bytes: &[u8], pos: usize) -> (r: Result<(u32, usize), ParsingError>)
    ensures
        decoded(r, spec_read_u32(bytes@, pos as int)),
        r matches Ok((_, end)) ==> pos < end <= bytes@.len(),
{
    if pos > bytes.len() {
        return Err(ParsingError::Leb128);
    }
    proof {
        lemma_leb_end_bounds(bytes@, pos as int);
    }
    match leb128_read_unsigned(bytes, pos) {
        Ok((value, left)) => {
            let end = bytes.len() - left;
            if end - pos <= 5 && value <= 0xFFFF_FFFF {
                Ok((value as u32, end))
            } else {
                Err(ParsingError::Leb128)
            }
        },
        Err(_) => Err(ParsingError::Leb128),
    }
}

/// Reads a signed 64-bit LEB128 number.
pub fn read_i64(bytes: &[u8], pos: usize) -> (r: Result<(i64, usize), ParsingError>)
    ensures
        decoded(r, spec_read_i64(bytes@, pos as int)),
        r matches Ok((_, end)) ==> pos < end <= bytes@.len(),
{
    if pos > bytes.len() {
        return Err(ParsingError::Leb128);
    }
    proof {
        lemma_leb_end_bounds(bytes@, pos as int);
    }
    match leb128_read_signed(bytes, pos) {
        Ok((value, left)) => Ok((value, bytes.len() - left)),
        Err(_) => Err(ParsingError::Leb128),
    }
}

/// Reads a signed 32-bit LEB128 number.
pub fn read_i32(bytes: &[u8], pos: usize) -> (r: Result<(i32, usize), ParsingError>)
    ensures
        decoded(r, spec_read_i32(bytes@, pos as int)),
        r matches Ok((_, end)) ==> pos < end <= bytes@.len(),
{
    if pos > bytes.len() {
        return Err(ParsingError::Leb128);
    }
    proof {
        lemma_leb_end_bounds(bytes@, pos as int);
    }
    match leb128_read_signed(bytes, pos) {
        Ok((value, left)) => {
            let end = bytes.len() - left;
            if end - pos <= 5 && -0x8000_0000 <= value && value <= 0x7FFF_FFFF {
                Ok((value as i32, end))
            } else {
                Err(ParsingError::Leb128)
            }
        },
        Err(_) => Err(ParsingError::Leb128),
    }
}

/// Where the bytes from `pos` up to `limit` all have their high bit set, a
/// number that starts at `pos` ends behind `limit`, if it ends at all.
pub proof fn lemma_leb_end_beyond(bytes: Seq<u8>, pos: int, limit: int)
    requires
        0 <= pos <= limit,
        forall|i: int| pos <= i < limit && i < bytes.len() ==> bytes[i] >= 128,
    ensures
        leb_end(bytes, pos) matches Some(end) ==> end > limit,
    decreases limit - pos,
{
    if pos < limit && pos < bytes.len() {
        lemma_leb_end_beyond(bytes, pos + 1, limit);
    } else {
        lemma_leb_end_bounds(bytes, pos);
    }
}

/// A 32-bit number that does not end within five bytes is rejected.
pub proof fn lemma_unterminated_32(bytes: Seq<u8>, pos: int)
    requires
        0 <= pos,
        forall|i: int| pos <= i < pos + 5 && i < bytes.len() ==> bytes[i] >= 128,
    ensures
        spec_read_u32(bytes, pos) == Err::<(u32, int), ParsingError>(ParsingError::Leb128),
        spec_read_i32(bytes, pos) == Err::<(i32, int), ParsingError>(ParsingError::Leb128),
{
    lemma_leb_end_beyond(bytes, pos, pos + 5);
}

/// A 64-bit number that does not end within ten bytes is rejected.
pub proof fn lemma_unterminated_64(bytes: Seq<u8>, pos: int)
    requires
        0 <= pos,
        forall|i: int| pos <= i < pos + 10 && i < bytes.len() ==> bytes[i] >= 128,
    ensures
        spec_read_u64(bytes, pos) == Err::<(u64, int), ParsingError>(ParsingError::Leb128),
        spec_read_i64(bytes, pos) == Err::<(i64, int), ParsingError>(ParsingError::Leb128),
{
    lemma_leb_end_beyond(bytes, pos, pos + 10);
}

} // verus!
