//! The binary format as a mathematical function: what each construct means
//! at a position of a byte sequence.
//!
//! Every function here takes the bytes and a position and gives the decoded
//! value with the position behind it, or the error that decoding ends in.
//! The decoder is proved to compute exactly these functions.

use vstd::prelude::*;
use crate::exec::instruction::{Immediates, Instruction, InstructionView, MemArg};
use crate::parse::error::ParsingError;
use crate::parse::opcode::Opcode;
use crate::parse::types::Type;
use crate::parse::varint::{spec_read_i32, spec_read_i64, spec_read_u32, Decoded};

verus! {

/// The byte at `pos`.
pub open spec fn spec_byte(bytes: Seq<u8>, pos: int) -> Decoded<u8> {
    if 0 <= pos < bytes.len() {
        Ok((bytes[pos], pos + 1))
    } else {
        Err(ParsingError::UnexpectedEndOfInput)
    }
}

/// The `n` bytes from `pos` on.
pub open spec fn spec_take(bytes: Seq<u8>, pos: int, n: int) -> Decoded<Seq<u8>> {
    if 0 <= pos && 0 <= n && pos + n <= bytes.len() {
        Ok((bytes.subrange(pos, pos + n), pos + n))
    } else {
        Err(ParsingError::UnexpectedEndOfInput)
    }
}

/// The number that the bytes in `[from, to)` spell, least significant byte
/// first.
pub open spec fn le_value(bytes: Seq<u8>, from: int, to: int) -> nat
    decreases to - from,
{
    if from >= to {
        0
    } else {
        bytes[from] as nat + 256 * le_value(bytes, from + 1, to)
    }
}

/// The four bytes at `pos` as a number, least significant byte first.
pub open spec fn spec_le_u32(bytes: Seq<u8>, pos: int) -> Decoded<u32> {
    match spec_take(bytes, pos, 4) {
        Ok((_, end)) => Ok((le_value(bytes, pos, pos + 4) as u32, end)),
        Err(e) => Err(e),
    }
}

/// The eight bytes at `pos` as a number, least significant byte first.
pub open spec fn spec_le_u64(bytes: Seq<u8>, pos: int) -> Decoded<u64> {
    match spec_take(bytes, pos, 8) {
        Ok((_, end)) => Ok((le_value(bytes, pos, pos + 8) as u64, end)),
        Err(e) => Err(e),
    }
}

/// A 32-bit unsigned LEB128 number at `pos`, as an index or a count.
pub open spec fn spec_index(bytes: Seq<u8>, pos: int) -> Decoded<usize> {
    match spec_read_u32(bytes, pos) {
        Ok((value, end)) => Ok((value as usize, end)),
        Err(e) => Err(e),
    }
}

/// A label index at `pos`: a 32-bit unsigned LEB128 number that fits a byte.
pub open spec fn spec_label(bytes: Seq<u8>, pos: int) -> Decoded<u8> {
    match spec_read_u32(bytes, pos) {
        Ok((value, end)) => if value <= 255 {
            Ok((value as u8, end))
        } else {
            Err(ParsingError::Leb128)
        },
        Err(e) => Err(e),
    }
}

/// `n` label indexes from `pos` on, appended to `acc`.
pub open spec fn spec_labels(bytes: Seq<u8>, pos: int, n: nat, acc: Seq<u8>) -> Decoded<Seq<u8>>
    decreases n,
{
    if n == 0 {
        Ok((acc, pos))
    } else {
        match spec_label(bytes, pos) {
            Ok((label, next)) => spec_labels(bytes, next, (n - 1) as nat, acc.push(label)),
            Err(e) => Err(e),
        }
    }
}

/// A type tag at `pos`.
pub open spec fn spec_type(bytes: Seq<u8>, pos: int) -> Decoded<Type> {
    match spec_byte(bytes, pos) {
        Ok((b, end)) => match Type::decode(b) {
            Some(t) => Ok((t, end)),
            None => Err(ParsingError::UnknownType(b)),
        },
        Err(e) => Err(e),
    }
}

/// `n` type tags from `pos` on, appended to `acc`.
pub open spec fn spec_types(bytes: Seq<u8>, pos: int, n: nat, acc: Seq<Type>) -> Decoded<Seq<Type>>
    decreases n,
{
    if n == 0 {
        Ok((acc, pos))
    } else {
        match spec_type(bytes, pos) {
            Ok((t, next)) => spec_types(bytes, next, (n - 1) as nat, acc.push(t)),
            Err(e) => Err(e),
        }
    }
}

/// A vector of type tags at `pos`: a count, then that many tags.
pub open spec fn spec_type_vector(bytes: Seq<u8>, pos: int) -> Decoded<Seq<Type>> {
    match spec_index(bytes, pos) {
        Ok((n, next)) => spec_types(bytes, next, n as nat, Seq::empty()),
        Err(e) => Err(e),
    }
}

/// The immediate of a memory instruction at `pos`: alignment, then offset.
pub open spec fn spec_memarg(bytes: Seq<u8>, pos: int) -> Decoded<MemArg> {
    match spec_index(bytes, pos) {
        Ok((align, next)) => match spec_index(bytes, next) {
            Ok((offset, end)) => Ok((MemArg { align, offset }, end)),
            Err(e) => Err(e),
        },
        Err(e) => Err(e),
    }
}

/// The instruction that the opcode `op` starts, where the bytes from `pos` on
/// hold its immediates and `op` takes no nested list.
pub open spec fn spec_flat_instruction(bytes: Seq<u8>, pos: int, op: Opcode) -> Decoded<
    InstructionView,
> {
    match op.immediates() {
        Immediates::Plain => match Instruction::plain_of(op) {
            Some(i) => Ok((InstructionView::Simple(i), pos)),
            None => Err(ParsingError::UnknownOpcode(op.byte())),
        },
        Immediates::Label => match spec_label(bytes, pos) {
            Ok((label_index, end)) => Ok(
                (
                    InstructionView::Simple(
                        if op is Br {
                            Instruction::Br { label_index }
                        } else {
                            Instruction::BrIf { label_index }
                        },
                    ),
                    end,
                ),
            ),
            Err(e) => Err(e),
        },
        Immediates::LabelTable => match spec_index(bytes, pos) {
            Ok((n, next)) => match spec_labels(bytes, next, n as nat + 1, Seq::empty()) {
                Ok((label_indexes, end)) => Ok((InstructionView::BrTable { label_indexes }, end)),
                Err(e) => Err(e),
            },
            Err(e) => Err(e),
        },
        Immediates::Index => match spec_index(bytes, pos) {
            Ok((index, end)) => Ok((InstructionView::Simple(Instruction::indexed(op, index)), end)),
            Err(e) => Err(e),
        },
        Immediates::IndexPair => match spec_index(bytes, pos) {
            Ok((table_index, next)) => match spec_index(bytes, next) {
                Ok((type_index, end)) => Ok(
                    (
                        InstructionView::Simple(
                            Instruction::CallIndirect { table_index, type_index },
                        ),
                        end,
                    ),
                ),
                Err(e) => Err(e),
            },
            Err(e) => Err(e),
        },
        Immediates::MemArg => match spec_memarg(bytes, pos) {
            Ok((memarg, end)) => Ok(
                (InstructionView::Simple(Instruction::memory_access(op, memarg)), end),
            ),
            Err(e) => Err(e),
        },
        Immediates::ConstI32 => match spec_read_i32(bytes, pos) {
            Ok((value, end)) => Ok((InstructionView::Simple(Instruction::I32Const(value)), end)),
            Err(e) => Err(e),
        },
        Immediates::ConstI64 => match spec_read_i64(bytes, pos) {
            Ok((value, end)) => Ok((InstructionView::Simple(Instruction::I64Const(value)), end)),
            Err(e) => Err(e),
        },
        Immediates::ConstF32 => match spec_le_u32(bytes, pos) {
            Ok((bits, end)) => Ok((InstructionView::Simple(Instruction::F32Const(bits)), end)),
            Err(e) => Err(e),
        },
        Immediates::ConstF64 => match spec_le_u64(bytes, pos) {
            Ok((bits, end)) => Ok((InstructionView::Simple(Instruction::F64Const(bits)), end)),
            Err(e) => Err(e),
        },
        Immediates::Byte => match spec_byte(bytes, pos) {
            Ok((_, end)) => match Instruction::plain_of(op) {
                Some(i) => Ok((InstructionView::Simple(i), end)),
                None => Err(ParsingError::UnknownOpcode(op.byte())),
            },
            Err(e) => Err(e),
        },
        Immediates::SkippedIndex => match spec_index(bytes, pos) {
            Ok((_, end)) => match Instruction::plain_of(op) {
                Some(i) => Ok((InstructionView::Simple(i), end)),
                None => Err(ParsingError::UnknownOpcode(op.byte())),
            },
            Err(e) => Err(e),
        },
        Immediates::SkippedTypes => match spec_type_vector(bytes, pos) {
            Ok((_, end)) => match Instruction::plain_of(op) {
                Some(i) => Ok((InstructionView::Simple(i), end)),
                None => Err(ParsingError::UnknownOpcode(op.byte())),
            },
            Err(e) => Err(e),
        },
        _ => Err(ParsingError::UnknownOpcode(op.byte())),
    }
}

/// The instruction that the opcode `op` starts, where the bytes from `pos` on
/// hold what follows the opcode.
pub open spec fn spec_instruction(bytes: Seq<u8>, pos: int, op: Opcode) -> Decoded<InstructionView>
    decreases bytes.len() - pos, 0int,
{
    match op.immediates() {
        Immediates::Block => match spec_byte(bytes, pos) {
            Ok((block_type, next)) => match spec_body(bytes, next) {
                Ok((body, end)) => Ok(
                    (
                        if op is Block {
                            InstructionView::Block { block_type, body }
                        } else {
                            InstructionView::Loop { block_type, body }
                        },
                        end,
                    ),
                ),
                Err(e) => Err(e),
            },
            Err(e) => Err(e),
        },
        Immediates::If => match spec_byte(bytes, pos) {
            Ok((block_type, next)) => match spec_instructions(bytes, next, Seq::empty()) {
                Ok(((then_body, terminator), middle)) => if terminator is Else {
                    if pos < middle <= bytes.len() {
                        match spec_body(bytes, middle) {
                            Ok((else_body, end)) => Ok(
                                (InstructionView::If { block_type, then_body, else_body }, end),
                            ),
                            Err(e) => Err(e),
                        }
                    } else {
                        Err(ParsingError::UnexpectedEndOfInput)
                    }
                } else {
                    Ok(
                        (
                            InstructionView::If { block_type, then_body, else_body: Seq::empty() },
                            middle,
                        ),
                    )
                },
                Err(e) => Err(e),
            },
            Err(e) => Err(e),
        },
        _ => spec_flat_instruction(bytes, pos, op),
    }
}

/// The instructions from `pos` up to the next `End` or `Else` on the same
/// level, appended to `acc`, with the opcode that ended the list.
pub open spec fn spec_instructions(
    bytes: Seq<u8>,
    pos: int,
    acc: Seq<InstructionView>,
) -> Decoded<(Seq<InstructionView>, Opcode)>
    decreases bytes.len() - pos, 1int,
{
    match spec_byte(bytes, pos) {
        Ok((b, next)) => match Opcode::decode(b) {
            Some(op) => if op.immediates() is Terminator {
                Ok(((acc, op), next))
            } else {
                match spec_instruction(bytes, next, op) {
                    Ok((instruction, end)) => if pos < end <= bytes.len() {
                        spec_instructions(bytes, end, acc.push(instruction))
                    } else {
                        Err(ParsingError::UnexpectedEndOfInput)
                    },
                    Err(e) => Err(e),
                }
            },
            None => Err(ParsingError::UnknownOpcode(b)),
        },
        Err(e) => Err(e),
    }
}

/// An instruction list from `pos` on that ends with `End`.
pub open spec fn spec_body(bytes: Seq<u8>, pos: int) -> Decoded<Seq<InstructionView>>
    decreases bytes.len() - pos, 2int,
{
    match spec_instructions(bytes, pos, Seq::empty()) {
        Ok(((code, terminator), end)) => if terminator is End {
            Ok((code, end))
        } else {
            Err(ParsingError::ExpectedOpcode(Opcode::End))
        },
        Err(e) => Err(e),
    }
}

} // verus!
