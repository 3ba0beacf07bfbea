//! The arithmetic instructions: what each takes from the operand stack and
//! what it puts back.

use vstd::prelude::*;
use crate::exec::error::ExecutionError;
use crate::exec::instruction::Instruction;
use crate::exec::numeric::{
    clz32,
    clz64,
    count_leading_zeros_32,
    count_leading_zeros_64,
    count_ones_32,
    count_ones_64,
    count_trailing_zeros_32,
    count_trailing_zeros_64,
    ctz32,
    ctz64,
    div_s32,
    div_s64,
    div_u32,
    div_u64,
    divide_s32,
    divide_s64,
    divide_u32,
    divide_u64,
    extend_s,
    flag,
    flag_of,
    i32_of,
    i32_to_u32,
    i64_of,
    i64_to_u64,
    popcnt32,
    popcnt64,
    rem_s32,
    rem_s64,
    rem_u32,
    rem_u64,
    remainder_s32,
    remainder_s64,
    remainder_u32,
    remainder_u64,
    rotate_left_32,
    rotate_left_64,
    rotate_right_32,
    rotate_right_64,
    rotl32,
    rotl64,
    rotr32,
    rotr64,
    sign_extend_32,
    sign_extend_64,
    u32_of,
    u32_to_i32,
    u64_of,
    u64_to_i64,
};
use crate::exec::types::Value;
use crate::parse::types::Type;

verus! {

/// The signature of an arithmetic instruction: how many operands it takes
/// from the stack, their type, and the type of the one result it puts back.
#[derive(Clone, Copy, Debug, PartialEq, Eq, Structural)]
pub struct Shape {
    pub operands: u8,
    pub operand_type: Type,
    pub result_type: Type,
}

/// The result of an operation on 32-bit numbers as a stack value.
pub open spec fn lift_i32(r: Result<i32, ExecutionError>) -> Result<Value, ExecutionError> {
    match r {
        Ok(v) => Ok(Value::I32(v)),
        Err(e) => Err(e),
    }
}

/// The result of an operation on 64-bit numbers as a stack value.
pub open spec fn lift_i64(r: Result<i64, ExecutionError>) -> Result<Value, ExecutionError> {
    match r {
        Ok(v) => Ok(Value::I64(v)),
        Err(e) => Err(e),
    }
}

/// Turns the result of an operation on 32-bit numbers into a stack value.
pub fn wrap_i32(r: Result<i32, ExecutionError>) -> (v: Result<Value, ExecutionError>)
    ensures
        v == lift_i32(r),
{
    match r {
        Ok(v) => Ok(Value::I32(v)),
        Err(e) => Err(e),
    }
}

/// Turns the result of an operation on 64-bit numbers into a stack value.
pub fn wrap_i64(r: Result<i64, ExecutionError>) -> (v: Result<Value, ExecutionError>)
    ensures
        v == lift_i64(r),
{
    match r {
        Ok(v) => Ok(Value::I64(v)),
        Err(e) => Err(e),
    }
}

impl Instruction {
    /// The signature of this instruction, if it is an arithmetic one: a
    /// constant, a test, a comparison, an operation on integers or a
    /// conversion between integers and bit patterns.
    pub open spec fn shape(&self) -> Option<Shape> {
        match self {
            Instruction::I32Eqz
            | Instruction::I32Clz
            | Instruction::I32Ctz
            | Instruction::I32Popcnt
            | Instruction::I32Extend8S
            | Instruction::I32Extend16S => Some(
                Shape { operands: 1, operand_type: Type::I32, result_type: Type::I32 },
            ),
            Instruction::I32Eq
            | Instruction::I32Ne
            | Instruction::I32LtS
            | Instruction::I32LtU
            | Instruction::I32GtS
            | Instruction::I32GtU
            | Instruction::I32LeS
            | Instruction::I32LeU
            | Instruction::I32GeS
            | Instruction::I32GeU
            | Instruction::I32Add
            | Instruction::I32Sub
            | Instruction::I32Mul
            | Instruction::I32DivS
            | Instruction::I32DivU
            | Instruction::I32RemS
            | Instruction::I32RemU
            | Instruction::I32And
            | Instruction::I32Or
            | Instruction::I32Xor
            | Instruction::I32Shl
            | Instruction::I32ShrS
            | Instruction::I32ShrU
            | Instruction::I32Rotl
            | Instruction::I32Rotr => Some(
                Shape { operands: 2, operand_type: Type::I32, result_type: Type::I32 },
            ),
            Instruction::I64Eqz
            | Instruction::I32WrapI64 => Some(
                Shape { operands: 1, operand_type: Type::I64, result_type: Type::I32 },
            ),
            Instruction::I64Eq
            | Instruction::I64Ne
            | Instruction::I64LtS
            | Instruction::I64LtU
            | Instruction::I64GtS
            | Instruction::I64GtU
            | Instruction::I64LeS
            | Instruction::I64LeU
            | Instruction::I64GeS
            | Instruction::I64GeU => Some(
                Shape { operands: 2, operand_type: Type::I64, result_type: Type::I32 },
            ),
            Instruction::I64Clz
            | Instruction::I64Ctz
            | Instruction::I64Popcnt
            | Instruction::I64Extend8S
            | Instruction::I64Extend16S
            | Instruction::I64Extend32S => Some(
                Shape { operands: 1, operand_type: Type::I64, result_type: Type::I64 },
            ),
            Instruction::I64Add
            | Instruction::I64Sub
            | Instruction::I64Mul
            | Instruction::I64DivS
            | Instruction::I64DivU
            | Instruction::I64RemS
            | Instruction::I64RemU
            | Instruction::I64And
            | Instruction::I64Or
            | Instruction::I64Xor
            | Instruction::I64Shl
            | Instruction::I64ShrS
            | Instruction::I64ShrU
            | Instruction::I64Rotl
            | Instruction::I64Rotr => Some(
                Shape { operands: 2, operand_type: Type::I64, result_type: Type::I64 },
            ),
            Instruction::I64ExtendI32S
            | Instruction::I64ExtendI32U => Some(
                Shape { operands: 1, operand_type: Type::I32, result_type: Type::I64 },
            ),
            Instruction::F32ReinterpretI32 => Some(
                Shape { operands: 1, operand_type: Type::I32, result_type: Type::F32 },
            ),
            Instruction::F64ReinterpretI64 => Some(
                Shape { operands: 1, operand_type: Type::I64, result_type: Type::F64 },
            ),
            Instruction::I32ReinterpretF32 => Some(
                Shape { operands: 1, operand_type: Type::F32, result_type: Type::I32 },
            ),
            Instruction::I64ReinterpretF64 => Some(
                Shape { operands: 1, operand_type: Type::F64, result_type: Type::I64 },
            ),
            Instruction::I32Const(..) => Some(
                Shape { operands: 0, operand_type: Type::I32, result_type: Type::I32 },
            ),
            Instruction::I64Const(..) => Some(
                Shape { operands: 0, operand_type: Type::I64, result_type: Type::I64 },
            ),
            Instruction::F32Const(..) => Some(
                Shape { operands: 0, operand_type: Type::F32, result_type: Type::F32 },
            ),
            Instruction::F64Const(..) => Some(
                Shape { operands: 0, operand_type: Type::F64, result_type: Type::F64 },
            ),
            _ => None,
        }
    }

    /// Tells the signature of this instruction, if it is an arithmetic one.
    pub fn shape_of(&self) -> (r: Option<Shape>)
        ensures
            r == self.shape(),
    {
        match self {
            Instruction::I32Eqz
            | Instruction::I32Clz
            | Instruction::I32Ctz
            | Instruction::I32Popcnt
            | Instruction::I32Extend8S
            | Instruction::I32Extend16S => Some(
                Shape { operands: 1, operand_type: Type::I32, result_type: Type::I32 },
            ),
            Instruction::I32Eq
            | Instruction::I32Ne
            | Instruction::I32LtS
            | Instruction::I32LtU
            | Instruction::I32GtS
            | Instruction::I32GtU
            | Instruction::I32LeS
            | Instruction::I32LeU
            | Instruction::I32GeS
            | Instruction::I32GeU
            | Instruction::I32Add
            | Instruction::I32Sub
            | Instruction::I32Mul
            | Instruction::I32DivS
            | Instruction::I32DivU
            | Instruction::I32RemS
            | Instruction::I32RemU
            | Instruction::I32And
            | Instruction::I32Or
            | Instruction::I32Xor
            | Instruction::I32Shl
            | Instruction::I32ShrS
            | Instruction::I32ShrU
            | Instruction::I32Rotl
            | Instruction::I32Rotr => Some(
                Shape { operands: 2, operand_type: Type::I32, result_type: Type::I32 },
            ),
            Instruction::I64Eqz
            | Instruction::I32WrapI64 => Some(
                Shape { operands: 1, operand_type: Type::I64, result_type: Type::I32 },
            ),
            Instruction::I64Eq
            | Instruction::I64Ne
            | Instruction::I64LtS
            | Instruction::I64LtU
            | Instruction::I64GtS
            | Instruction::I64GtU
            | Instruction::I64LeS
            | Instruction::I64LeU
            | Instruction::I64GeS
            | Instruction::I64GeU => Some(
                Shape { operands: 2, operand_type: Type::I64, result_type: Type::I32 },
            ),
            Instruction::I64Clz
            | Instruction::I64Ctz
            | Instruction::I64Popcnt
            | Instruction::I64Extend8S
            | Instruction::I64Extend16S
            | Instruction::I64Extend32S => Some(
                Shape { operands: 1, operand_type: Type::I64, result_type: Type::I64 },
            ),
            Instruction::I64Add
            | Instruction::I64Sub
            | Instruction::I64Mul
            | Instruction::I64DivS
            | Instruction::I64DivU
            | Instruction::I64RemS
            | Instruction::I64RemU
            | Instruction::I64And
            | Instruction::I64Or
            | Instruction::I64Xor
            | Instruction::I64Shl
            | Instruction::I64ShrS
            | Instruction::I64ShrU
            | Instruction::I64Rotl
            | Instruction::I64Rotr => Some(
                Shape { operands: 2, operand_type: Type::I64, result_type: Type::I64 },
            ),
            Instruction::I64ExtendI32S
            | Instruction::I64ExtendI32U => Some(
                Shape { operands: 1, operand_type: Type::I32, result_type: Type::I64 },
            ),
            Instruction::F32ReinterpretI32 => Some(
                Shape { operands: 1, operand_type: Type::I32, result_type: Type::F32 },
            ),
            Instruction::F64ReinterpretI64 => Some(
                Shape { operands: 1, operand_type: Type::I64, result_type: Type::F64 },
            ),
            Instruction::I32ReinterpretF32 => Some(
                Shape { operands: 1, operand_type: Type::F32, result_type: Type::I32 },
            ),
            Instruction::I64ReinterpretF64 => Some(
                Shape { operands: 1, operand_type: Type::F64, result_type: Type::I64 },
            ),
            Instruction::I32Const(..) => Some(
                Shape { operands: 0, operand_type: Type::I32, result_type: Type::I32 },
            ),
            Instruction::I64Const(..) => Some(
                Shape { operands: 0, operand_type: Type::I64, result_type: Type::I64 },
            ),
            Instruction::F32Const(..) => Some(
                Shape { operands: 0, operand_type: Type::F32, result_type: Type::F32 },
            ),
            Instruction::F64Const(..) => Some(
                Shape { operands: 0, operand_type: Type::F64, result_type: Type::F64 },
            ),
            _ => None,
        }
    }
}

/// What an arithmetic instruction on 32-bit integers gives.  `x` is the first
/// operand and `y` the second, which was on top; an instruction with one
/// operand takes `x`.
pub open spec fn compute_i32(
    instruction: Instruction,
    x: i32,
    y: i32,
) -> Result<Value, ExecutionError> {
    match instruction {
        Instruction::I32Eqz => Ok(Value::I32(flag(x == 0))),
        Instruction::I32Eq => Ok(Value::I32(flag(x == y))),
        Instruction::I32Ne => Ok(Value::I32(flag(x != y))),
        Instruction::I32LtS => Ok(Value::I32(flag(x < y))),
        Instruction::I32LtU => Ok(Value::I32(flag(u32_of(x) < u32_of(y)))),
        Instruction::I32GtS => Ok(Value::I32(flag(x > y))),
        Instruction::I32GtU => Ok(Value::I32(flag(u32_of(x) > u32_of(y)))),
        Instruction::I32LeS => Ok(Value::I32(flag(x <= y))),
        Instruction::I32LeU => Ok(Value::I32(flag(u32_of(x) <= u32_of(y)))),
        Instruction::I32GeS => Ok(Value::I32(flag(x >= y))),
        Instruction::I32GeU => Ok(Value::I32(flag(u32_of(x) >= u32_of(y)))),
        Instruction::I32Clz => Ok(Value::I32(clz32(x))),
        Instruction::I32Ctz => Ok(Value::I32(ctz32(x))),
        Instruction::I32Popcnt => Ok(Value::I32(popcnt32(x))),
        Instruction::I32Add => Ok(Value::I32(x.wrapping_add(y))),
        Instruction::I32Sub => Ok(Value::I32(x.wrapping_sub(y))),
        Instruction::I32Mul => Ok(Value::I32(x.wrapping_mul(y))),
        Instruction::I32DivS => lift_i32(div_s32(x, y)),
        Instruction::I32DivU => lift_i32(div_u32(x, y)),
        Instruction::I32RemS => lift_i32(rem_s32(x, y)),
        Instruction::I32RemU => lift_i32(rem_u32(x, y)),
        Instruction::I32And => Ok(Value::I32(x & y)),
        Instruction::I32Or => Ok(Value::I32(x | y)),
        Instruction::I32Xor => Ok(Value::I32(x ^ y)),
        Instruction::I32Shl => Ok(Value::I32(x.wrapping_shl(u32_of(y)))),
        Instruction::I32ShrS => Ok(Value::I32(x.wrapping_shr(u32_of(y)))),
        Instruction::I32ShrU => Ok(Value::I32(i32_of(u32_of(x).wrapping_shr(u32_of(y))))),
        Instruction::I32Rotl => Ok(Value::I32(i32_of(rotl32(u32_of(x), u32_of(y))))),
        Instruction::I32Rotr => Ok(Value::I32(i32_of(rotr32(u32_of(x), u32_of(y))))),
        Instruction::I32Extend8S => Ok(Value::I32(extend_s(u32_of(x) as int, 0x100) as i32)),
        Instruction::I32Extend16S => Ok(Value::I32(extend_s(u32_of(x) as int, 0x1_0000) as i32)),
        Instruction::I64ExtendI32S => Ok(Value::I64(x as i64)),
        Instruction::I64ExtendI32U => Ok(Value::I64(u32_of(x) as i64)),
        Instruction::F32ReinterpretI32 => Ok(Value::F32(u32_of(x))),
        _ => Ok(Value::I32(x)),
    }
}

/// Computes an arithmetic instruction on 32-bit integers.
pub fn evaluate_i32(instruction: &Instruction, x: i32, y: i32) -> (r: Result<Value, ExecutionError>)
    ensures
        r == compute_i32(*instruction, x, y),
{
    match instruction {
        Instruction::I32Eqz => Ok(Value::I32(flag_of(x == 0))),
        Instruction::I32Eq => Ok(Value::I32(flag_of(x == y))),
        Instruction::I32Ne => Ok(Value::I32(flag_of(x != y))),
        Instruction::I32LtS => Ok(Value::I32(flag_of(x < y))),
        Instruction::I32LtU => Ok(Value::I32(flag_of(i32_to_u32(x) < i32_to_u32(y)))),
        Instruction::I32GtS => Ok(Value::I32(flag_of(x > y))),
        Instruction::I32GtU => Ok(Value::I32(flag_of(i32_to_u32(x) > i32_to_u32(y)))),
        Instruction::I32LeS => Ok(Value::I32(flag_of(x <= y))),
        Instruction::I32LeU => Ok(Value::I32(flag_of(i32_to_u32(x) <= i32_to_u32(y)))),
        Instruction::I32GeS => Ok(Value::I32(flag_of(x >= y))),
        Instruction::I32GeU => Ok(Value::I32(flag_of(i32_to_u32(x) >= i32_to_u32(y)))),
        Instruction::I32Clz => Ok(Value::I32(count_leading_zeros_32(x))),
        Instruction::I32Ctz => Ok(Value::I32(count_trailing_zeros_32(x))),
        Instruction::I32Popcnt => Ok(Value::I32(count_ones_32(x))),
        Instruction::I32Add => Ok(Value::I32(x.wrapping_add(y))),
        Instruction::I32Sub => Ok(Value::I32(x.wrapping_sub(y))),
        Instruction::I32Mul => Ok(Value::I32(x.wrapping_mul(y))),
        Instruction::I32DivS => wrap_i32(divide_s32(x, y)),
        Instruction::I32DivU => wrap_i32(divide_u32(x, y)),
        Instruction::I32RemS => wrap_i32(remainder_s32(x, y)),
        Instruction::I32RemU => wrap_i32(remainder_u32(x, y)),
        Instruction::I32And => Ok(Value::I32(x & y)),
        Instruction::I32Or => Ok(Value::I32(x | y)),
        Instruction::I32Xor => Ok(Value::I32(x ^ y)),
        Instruction::I32Shl => Ok(Value::I32(x.wrapping_shl(i32_to_u32(y)))),
        Instruction::I32ShrS => Ok(Value::I32(x.wrapping_shr(i32_to_u32(y)))),
        Instruction::I32ShrU => Ok(
            Value::I32(u32_to_i32(i32_to_u32(x).wrapping_shr(i32_to_u32(y)))),
        ),
        Instruction::I32Rotl => Ok(
            Value::I32(u32_to_i32(rotate_left_32(i32_to_u32(x), i32_to_u32(y)))),
        ),
        Instruction::I32Rotr => Ok(
            Value::I32(u32_to_i32(rotate_right_32(i32_to_u32(x), i32_to_u32(y)))),
        ),
        Instruction::I32Extend8S => Ok(Value::I32(sign_extend_32(x, 0x100))),
        Instruction::I32Extend16S => Ok(Value::I32(sign_extend_32(x, 0x1_0000))),
        Instruction::I64ExtendI32S => Ok(Value::I64(x as i64)),
        Instruction::I64ExtendI32U => Ok(Value::I64(i32_to_u32(x) as i64)),
        Instruction::F32ReinterpretI32 => Ok(Value::F32(i32_to_u32(x))),
        _ => Ok(Value::I32(x)),
    }
}

/// What an arithmetic instruction on 64-bit integers gives.  `x` is the first
/// operand and `y` the second, which was on top; an instruction with one
/// operand takes `x`.
pub open spec fn compute_i64(
    instruction: Instruction,
    x: i64,
    y: i64,
) -> Result<Value, ExecutionError> {
    match instruction {
        Instruction::I64Eqz => Ok(Value::I32(flag(x == 0))),
        Instruction::I64Eq => Ok(Value::I32(flag(x == y))),
        Instruction::I64Ne => Ok(Value::I32(flag(x != y))),
        Instruction::I64LtS => Ok(Value::I32(flag(x < y))),
        Instruction::I64LtU => Ok(Value::I32(flag(u64_of(x) < u64_of(y)))),
        Instruction::I64GtS => Ok(Value::I32(flag(x > y))),
        Instruction::I64GtU => Ok(Value::I32(flag(u64_of(x) > u64_of(y)))),
        Instruction::I64LeS => Ok(Value::I32(flag(x <= y))),
        Instruction::I64LeU => Ok(Value::I32(flag(u64_of(x) <= u64_of(y)))),
        Instruction::I64GeS => Ok(Value::I32(flag(x >= y))),
        Instruction::I64GeU => Ok(Value::I32(flag(u64_of(x) >= u64_of(y)))),
        Instruction::I64Clz => Ok(Value::I64(clz64(x))),
        Instruction::I64Ctz => Ok(Value::I64(ctz64(x))),
        Instruction::I64Popcnt => Ok(Value::I64(popcnt64(x))),
        Instruction::I64Add => Ok(Value::I64(x.wrapping_add(y))),
        Instruction::I64Sub => Ok(Value::I64(x.wrapping_sub(y))),
        Instruction::I64Mul => Ok(Value::I64(x.wrapping_mul(y))),
        Instruction::I64DivS => lift_i64(div_s64(x, y)),
        Instruction::I64DivU => lift_i64(div_u64(x, y)),
        Instruction::I64RemS => lift_i64(rem_s64(x, y)),
        Instruction::I64RemU => lift_i64(rem_u64(x, y)),
        Instruction::I64And => Ok(Value::I64(x & y)),
        Instruction::I64Or => Ok(Value::I64(x | y)),
        Instruction::I64Xor => Ok(Value::I64(x ^ y)),
        Instruction::I64Shl => Ok(Value::I64(x.wrapping_shl((u64_of(y) % 64) as u32))),
        Instruction::I64ShrS => Ok(Value::I64(x.wrapping_shr((u64_of(y) % 64) as u32))),
        Instruction::I64ShrU => Ok(
            Value::I64(i64_of(u64_of(x).wrapping_shr((u64_of(y) % 64) as u32))),
        ),
        Instruction::I64Rotl => Ok(Value::I64(i64_of(rotl64(u64_of(x), u64_of(y))))),
        Instruction::I64Rotr => Ok(Value::I64(i64_of(rotr64(u64_of(x), u64_of(y))))),
        Instruction::I64Extend8S => Ok(Value::I64(extend_s(u64_of(x) as int, 0x100) as i64)),
        Instruction::I64Extend16S => Ok(Value::I64(extend_s(u64_of(x) as int, 0x1_0000) as i64)),
        Instruction::I64Extend32S => Ok(
            Value::I64(extend_s(u64_of(x) as int, 0x1_0000_0000) as i64),
        ),
        Instruction::I32WrapI64 => Ok(Value::I32(i32_of((u64_of(x) % 0x1_0000_0000) as u32))),
        Instruction::F64ReinterpretI64 => Ok(Value::F64(u64_of(x))),
        _ => Ok(Value::I64(x)),
    }
}

/// Computes an arithmetic instruction on 64-bit integers.
pub fn evaluate_i64(instruction: &Instruction, x: i64, y: i64) -> (r: Result<Value, ExecutionError>)
    ensures
        r == compute_i64(*instruction, x, y),
{
    match instruction {
        Instruction::I64Eqz => Ok(Value::I32(flag_of(x == 0))),
        Instruction::I64Eq => Ok(Value::I32(flag_of(x == y))),
        Instruction::I64Ne => Ok(Value::I32(flag_of(x != y))),
        Instruction::I64LtS => Ok(Value::I32(flag_of(x < y))),
        Instruction::I64LtU => Ok(Value::I32(flag_of(i64_to_u64(x) < i64_to_u64(y)))),
        Instruction::I64GtS => Ok(Value::I32(flag_of(x > y))),
        Instruction::I64GtU => Ok(Value::I32(flag_of(i64_to_u64(x) > i64_to_u64(y)))),
        Instruction::I64LeS => Ok(Value::I32(flag_of(x <= y))),
        Instruction::I64LeU => Ok(Value::I32(flag_of(i64_to_u64(x) <= i64_to_u64(y)))),
        Instruction::I64GeS => Ok(Value::I32(flag_of(x >= y))),
        Instruction::I64GeU => Ok(Value::I32(flag_of(i64_to_u64(x) >= i64_to_u64(y)))),
        Instruction::I64Clz => Ok(Value::I64(count_leading_zeros_64(x))),
        Instruction::I64Ctz => Ok(Value::I64(count_trailing_zeros_64(x))),
        Instruction::I64Popcnt => Ok(Value::I64(count_ones_64(x))),
        Instruction::I64Add => Ok(Value::I64(x.wrapping_add(y))),
        Instruction::I64Sub => Ok(Value::I64(x.wrapping_sub(y))),
        Instruction::I64Mul => Ok(Value::I64(x.wrapping_mul(y))),
        Instruction::I64DivS => wrap_i64(divide_s64(x, y)),
        Instruction::I64DivU => wrap_i64(divide_u64(x, y)),
        Instruction::I64RemS => wrap_i64(remainder_s64(x, y)),
        Instruction::I64RemU => wrap_i64(remainder_u64(x, y)),
        Instruction::I64And => Ok(Value::I64(x & y)),
        Instruction::I64Or => Ok(Value::I64(x | y)),
        Instruction::I64Xor => Ok(Value::I64(x ^ y)),
        Instruction::I64Shl => Ok(Value::I64(x.wrapping_shl((i64_to_u64(y) % 64) as u32))),
        Instruction::I64ShrS => Ok(Value::I64(x.wrapping_shr((i64_to_u64(y) % 64) as u32))),
        Instruction::I64ShrU => Ok(
            Value::I64(u64_to_i64(i64_to_u64(x).wrapping_shr((i64_to_u64(y) % 64) as u32))),
        ),
        Instruction::I64Rotl => Ok(
            Value::I64(u64_to_i64(rotate_left_64(i64_to_u64(x), i64_to_u64(y)))),
        ),
        Instruction::I64Rotr => Ok(
            Value::I64(u64_to_i64(rotate_right_64(i64_to_u64(x), i64_to_u64(y)))),
        ),
        Instruction::I64Extend8S => Ok(Value::I64(sign_extend_64(x, 0x100))),
        Instruction::I64Extend16S => Ok(Value::I64(sign_extend_64(x, 0x1_0000))),
        Instruction::I64Extend32S => Ok(Value::I64(sign_extend_64(x, 0x1_0000_0000))),
        Instruction::I32WrapI64 => Ok(
            Value::I32(u32_to_i32((i64_to_u64(x) % 0x1_0000_0000) as u32)),
        ),
        Instruction::F64ReinterpretI64 => Ok(Value::F64(i64_to_u64(x))),
        _ => Ok(Value::I64(x)),
    }
}

/// What an arithmetic instruction on the bit pattern of a 32-bit float gives.  `x` is the first
/// operand and `y` the second, which was on top; an instruction with one
/// operand takes `x`.
pub open spec fn compute_f32(
    instruction: Instruction,
    x: u32,
    y: u32,
) -> Result<Value, ExecutionError> {
    match instruction {
        Instruction::I32ReinterpretF32 => Ok(Value::I32(i32_of(x))),
        _ => Ok(Value::F32(x)),
    }
}

/// Computes an arithmetic instruction on the bit pattern of a 32-bit float.
pub fn evaluate_f32(instruction: &Instruction, x: u32, y: u32) -> (r: Result<Value, ExecutionError>)
    ensures
        r == compute_f32(*instruction, x, y),
{
    match instruction {
        Instruction::I32ReinterpretF32 => Ok(Value::I32(u32_to_i32(x))),
        _ => Ok(Value::F32(x)),
    }
}

/// What an arithmetic instruction on the bit pattern of a 64-bit float gives.  `x` is the first
/// operand and `y` the second, which was on top; an instruction with one
/// operand takes `x`.
pub open spec fn compute_f64(
    instruction: Instruction,
    x: u64,
    y: u64,
) -> Result<Value, ExecutionError> {
    match instruction {
        Instruction::I64ReinterpretF64 => Ok(Value::I64(i64_of(x))),
        _ => Ok(Value::F64(x)),
    }
}

/// Computes an arithmetic instruction on the bit pattern of a 64-bit float.
pub fn evaluate_f64(instruction: &Instruction, x: u64, y: u64) -> (r: Result<Value, ExecutionError>)
    ensures
        r == compute_f64(*instruction, x, y),
{
    match instruction {
        Instruction::I64ReinterpretF64 => Ok(Value::I64(u64_to_i64(x))),
        _ => Ok(Value::F64(x)),
    }
}

/// The value that a constant instruction puts on the stack.
pub open spec fn constant(instruction: Instruction) -> Value {
    match instruction {
        Instruction::I32Const(c) => Value::I32(c),
        Instruction::I64Const(c) => Value::I64(c),
        Instruction::F32Const(c) => Value::F32(c),
        Instruction::F64Const(c) => Value::F64(c),
        _ => Value::I32(0),
    }
}

/// What an arithmetic instruction gives for the operands `a` and `b`, which
/// have the type that its signature asks for.  `b` was on top of the stack;
/// an instruction with one operand takes `a`, a constant takes none.
pub open spec fn compute(
    instruction: Instruction,
    a: Value,
    b: Value,
) -> Result<Value, ExecutionError> {
    match instruction.shape() {
        Some(shape) => if shape.operands == 0 {
            Ok(constant(instruction))
        } else {
            match shape.operand_type {
                Type::I32 => compute_i32(instruction, a->I32_0, b->I32_0),
                Type::I64 => compute_i64(instruction, a->I64_0, b->I64_0),
                Type::F32 => compute_f32(instruction, a->F32_0, b->F32_0),
                _ => compute_f64(instruction, a->F64_0, b->F64_0),
            }
        },
        None => Ok(a),
    }
}

/// Whether `value` has the type `t`, for the four types of operands.
pub open spec fn has_type(value: Value, t: Type) -> bool {
    match t {
        Type::I32 => value is I32,
        Type::I64 => value is I64,
        Type::F32 => value is F32,
        Type::F64 => value is F64,
        _ => false,
    }
}

/// Tells whether `value` has the type `t`.
pub fn check_type(value: Value, t: Type) -> (r: bool)
    ensures
        r == has_type(value, t),
{
    match (t, value) {
        (Type::I32, Value::I32(_)) => true,
        (Type::I64, Value::I64(_)) => true,
        (Type::F32, Value::F32(_)) => true,
        (Type::F64, Value::F64(_)) => true,
        _ => false,
    }
}

/// Computes an arithmetic instruction.
pub fn evaluate(instruction: &Instruction, a: Value, b: Value) -> (r: Result<Value, ExecutionError>)
    requires
        instruction.shape() matches Some(shape) && (shape.operands >= 1 ==> has_type(
            a,
            shape.operand_type,
        )) && (shape.operands >= 2 ==> has_type(b, shape.operand_type)),
    ensures
        r == compute(*instruction, a, b),
{
    match instruction {
        Instruction::I32Const(c) => {
            return Ok(Value::I32(*c));
        },
        Instruction::I64Const(c) => {
            return Ok(Value::I64(*c));
        },
        Instruction::F32Const(c) => {
            return Ok(Value::F32(*c));
        },
        Instruction::F64Const(c) => {
            return Ok(Value::F64(*c));
        },
        _ => {},
    }
    match (a, b) {
        (Value::I32(x), Value::I32(y)) => evaluate_i32(instruction, x, y),
        (Value::I32(x), _) => evaluate_i32(instruction, x, 0),
        (Value::I64(x), Value::I64(y)) => evaluate_i64(instruction, x, y),
        (Value::I64(x), _) => evaluate_i64(instruction, x, 0),
        (Value::F32(x), _) => evaluate_f32(instruction, x, 0),
        (Value::F64(x), _) => evaluate_f64(instruction, x, 0),
        _ => Ok(a),
    }
}

} // verus!
