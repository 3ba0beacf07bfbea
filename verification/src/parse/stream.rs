//! Decoding of the instruction stream and of the small constructs that the
//! sections share.

use vstd::prelude::*;
use crate::exec::instruction::{
    code_model,
    instruction_model,
    lemma_code_model_push,
    lemma_indexed_model,
    lemma_memory_access_model,
    lemma_plain_model,
    Immediates,
    Instruction,
    InstructionView,
    MemArg,
};
use crate::parse::error::ParsingError;
use crate::parse::grammar::{
    le_value,
    spec_body,
    spec_byte,
    spec_flat_instruction,
    spec_index,
    spec_instruction,
    spec_instructions,
    spec_label,
    spec_labels,
    spec_le_u32,
    spec_le_u64,
    spec_memarg,
    spec_take,
    spec_type,
    spec_type_vector,
    spec_types,
};
use crate::parse::opcode::Opcode;
use crate::parse::types::Type;
use crate::parse::varint::{decoded, read_i32, read_i64, read_u32, Decoded};

verus! {

/// Tells that the list `r` is what the model `d` prescribes.
pub open spec fn decoded_seq<T>(
    r: Result<(Vec<T>, usize), ParsingError>,
    d: Decoded<Seq<T>>,
) -> bool {
    match (r, d) {
        (Ok((value, end)), Ok((model, model_end))) => value@ == model && end == model_end,
        (Err(e), Err(model)) => e == model,
        _ => false,
    }
}

/// Tells that the instruction `r` is what the model `d` prescribes.
pub open spec fn decoded_instruction(
    r: Result<(Instruction, usize), ParsingError>,
    d: Decoded<InstructionView>,
) -> bool {
    match (r, d) {
        (Ok((value, end)), Ok((model, model_end))) => instruction_model(value) == model && end
            == model_end,
        (Err(e), Err(model)) => e == model,
        _ => false,
    }
}

/// Tells that the instruction list `r` is what the model `d` prescribes.
pub open spec fn decoded_code(
    r: Result<(Vec<Instruction>, usize), ParsingError>,
    d: Decoded<Seq<InstructionView>>,
) -> bool {
    match (r, d) {
        (Ok((value, end)), Ok((model, model_end))) => code_model(value@) == model && end
            == model_end,
        (Err(e), Err(model)) => e == model,
        _ => false,
    }
}

/// Tells that the instruction list `r` and its terminator are what the model
/// `d` prescribes.
pub open spec fn decoded_list(
    r: Result<((Vec<Instruction>, Opcode), usize), ParsingError>,
    d: Decoded<(Seq<InstructionView>, Opcode)>,
) -> bool {
    match (r, d) {
        (Ok(((value, terminator), end)), Ok(((model, model_terminator), model_end))) => code_model(
            value@,
        ) == model && terminator == model_terminator && end == model_end,
        (Err(e), Err(model)) => e == model,
        _ => false,
    }
}

/// Reads one byte.
pub fn read_byte(bytes: &[u8], pos: usize) -> (r: Result<(u8, usize), ParsingError>)
    ensures
        decoded(r, spec_byte(bytes@, pos as int)),
        r matches Ok((_, end)) ==> pos < end <= bytes@.len(),
{
    if pos < bytes.len() {
        Ok((bytes[pos], pos + 1))
    } else {
        Err(ParsingError::UnexpectedEndOfInput)
    }
}

/// Reads exactly `n` bytes.
pub fn read_exact(bytes: &[u8], pos: usize, n: usize) -> (r: Result<(Vec<u8>, usize), ParsingError>)
    ensures
        decoded_seq(r, spec_take(bytes@, pos as int, n as int)),
        r matches Ok((_, end)) ==> pos <= end <= bytes@.len(),
{
    if pos > bytes.len() || n > bytes.len() - pos {
        return Err(ParsingError::UnexpectedEndOfInput);
    }
    let end = pos + n;
    let mut taken: Vec<u8> = Vec::new();
    let mut i: usize = pos;
    while i < end
        invariant
            pos <= i <= end <= bytes@.len(),
            taken@ == bytes@.subrange(pos as int, i as int),
        decreases end - i,
    {
        taken.push(bytes[i]);
        i = i + 1;
        assert(taken@ =~= bytes@.subrange(pos as int, i as int));
    }
    Ok((taken, end))
}

/// Reads a 32-bit number as an index or a count.
pub fn read_index(bytes: &[u8], pos: usize) -> (r: Result<(usize, usize), ParsingError>)
    ensures
        decoded(r, spec_index(bytes@, pos as int)),
        r matches Ok((_, end)) ==> pos < end <= bytes@.len(),
{
    match read_u32(bytes, pos) {
        Ok((value, end)) => Ok((value as usize, end)),
        Err(e) => Err(e),
    }
}

/// Reads a label index.
pub fn read_label(bytes: &[u8], pos: usize) -> (r: Result<(u8, usize), ParsingError>)
    ensures
        decoded(r, spec_label(bytes@, pos as int)),
        r matches Ok((_, end)) ==> pos < end <= bytes@.len(),
{
    match read_u32(bytes, pos) {
        Ok((value, end)) => if value <= 255 {
            Ok((value as u8, end))
        } else {
            Err(ParsingError::Leb128)
        },
        Err(e) => Err(e),
    }
}

/// Reads `n` label indexes.
pub fn read_labels(bytes: &[u8], pos: usize, n: u64) -> (r: Result<(Vec<u8>, usize), ParsingError>)
    ensures
        decoded_seq(r, spec_labels(bytes@, pos as int, n as nat, Seq::empty())),
        r matches Ok((_, end)) ==> pos <= end && (pos <= bytes@.len() ==> end <= bytes@.len()),
{
    let mut labels: Vec<u8> = Vec::new();
    let mut at: usize = pos;
    let mut i: u64 = 0;
    while i < n
        invariant
            i <= n,
            pos <= at,
            pos <= bytes@.len() ==> at <= bytes@.len(),
            spec_labels(bytes@, pos as int, n as nat, Seq::empty()) == spec_labels(
                bytes@,
                at as int,
                (n - i) as nat,
                labels@,
            ),
        decreases n - i,
    {
        match read_label(bytes, at) {
            Ok((label, next)) => {
                labels.push(label);
                at = next;
            },
            Err(e) => {
                return Err(e);
            },
        }
        i = i + 1;
    }
    Ok((labels, at))
}

/// Reads a type tag.
pub fn read_type(bytes: &[u8], pos: usize) -> (r: Result<(Type, usize), ParsingError>)
    ensures
        decoded(r, spec_type(bytes@, pos as int)),
        r matches Ok((_, end)) ==> pos < end <= bytes@.len(),
{
    match read_byte(bytes, pos) {
        Ok((b, end)) => match Type::from_byte(b) {
            Some(t) => Ok((t, end)),
            None => Err(ParsingError::UnknownType(b)),
        },
        Err(e) => Err(e),
    }
}

/// Reads `n` type tags.
pub fn read_types(bytes: &[u8], pos: usize, n: usize) -> (r: Result<
    (Vec<Type>, usize),
    ParsingError,
>)
    ensures
        decoded_seq(r, spec_types(bytes@, pos as int, n as nat, Seq::empty())),
        r matches Ok((_, end)) ==> pos <= end && (pos <= bytes@.len() ==> end <= bytes@.len()),
{
    let mut types: Vec<Type> = Vec::new();
    let mut at: usize = pos;
    let mut i: usize = 0;
    while i < n
        invariant
            i <= n,
            pos <= at,
            pos <= bytes@.len() ==> at <= bytes@.len(),
            spec_types(bytes@, pos as int, n as nat, Seq::empty()) == spec_types(
                bytes@,
                at as int,
                (n - i) as nat,
                types@,
            ),
        decreases n - i,
    {
        match read_type(bytes, at) {
            Ok((t, next)) => {
                types.push(t);
                at = next;
            },
            Err(e) => {
                return Err(e);
            },
        }
        i = i + 1;
    }
    Ok((types, at))
}

/// Reads a vector of type tags: a count, then that many tags.
pub fn read_type_vector(bytes: &[u8], pos: usize) -> (r: Result<(Vec<Type>, usize), ParsingError>)
    ensures
        decoded_seq(r, spec_type_vector(bytes@, pos as int)),
        r matches Ok((_, end)) ==> pos < end <= bytes@.len(),
{
    match read_index(bytes, pos) {
        Ok((n, next)) => read_types(bytes, next, n),
        Err(e) => Err(e),
    }
}

/// Reads the immediate of a memory instruction.
pub fn parse_memarg(bytes: &[u8], pos: usize) -> (r: Result<(MemArg, usize), ParsingError>)
    ensures
        decoded(r, spec_memarg(bytes@, pos as int)),
        r matches Ok((_, end)) ==> pos < end <= bytes@.len(),
{
    match read_index(bytes, pos) {
        Ok((align, next)) => match read_index(bytes, next) {
            Ok((offset, end)) => Ok((MemArg { align, offset }, end)),
            Err(e) => Err(e),
        },
        Err(e) => Err(e),
    }
}

/// Reads four bytes as a number, least significant byte first.
pub fn read_le_u32(bytes: &[u8], pos: usize) -> (r: Result<(u32, usize), ParsingError>)
    ensures
        decoded(r, spec_le_u32(bytes@, pos as int)),
        r matches Ok((_, end)) ==> pos < end <= bytes@.len(),
{
    if pos > bytes.len() || 4 > bytes.len() - pos {
        return Err(ParsingError::UnexpectedEndOfInput);
    }
    let b0 = bytes[pos] as u32;
    let b1 = bytes[pos + 1] as u32;
    let b2 = bytes[pos + 2] as u32;
    let b3 = bytes[pos + 3] as u32;
    proof {
        reveal_with_fuel(le_value, 5);
    }
    Ok((b0 + 256 * (b1 + 256 * (b2 + 256 * b3)), pos + 4))
}

/// Reads eight bytes as a number, least significant byte first.
pub fn read_le_u64(bytes: &[u8], pos: usize) -> (r: Result<(u64, usize), ParsingError>)
    ensures
        decoded(r, spec_le_u64(bytes@, pos as int)),
        r matches Ok((_, end)) ==> pos < end <= bytes@.len(),
{
    if pos > bytes.len() || 8 > bytes.len() - pos {
        return Err(ParsingError::UnexpectedEndOfInput);
    }
    let b0 = bytes[pos] as u64;
    let b1 = bytes[pos + 1] as u64;
    let b2 = bytes[pos + 2] as u64;
    let b3 = bytes[pos + 3] as u64;
    let b4 = bytes[pos + 4] as u64;
    let b5 = bytes[pos + 5] as u64;
    let b6 = bytes[pos + 6] as u64;
    let b7 = bytes[pos + 7] as u64;
    proof {
        reveal_with_fuel(le_value, 9);
    }
    Ok(
        (
            b0 + 256 * (b1 + 256 * (b2 + 256 * (b3 + 256 * (b4 + 256 * (b5 + 256 * (b6 + 256
                * b7)))))),
            pos + 8,
        ),
    )
}

/// Decodes what follows the opcode `op`, for an opcode that takes no nested
/// instruction list.
pub fn parse_flat_instruction(bytes: &[u8], pos: usize, op: Opcode) -> (r: Result<
    (Instruction, usize),
    ParsingError,
>)
    ensures
        decoded_instruction(r, spec_flat_instruction(bytes@, pos as int, op)),
        r matches Ok((_, end)) ==> pos <= end && (pos <= bytes@.len() ==> end <= bytes@.len()),
{
    proof {
        lemma_plain_model(op);
    }
    match op.immediates_kind() {
        Immediates::Plain => match Instruction::plain(op) {
            Some(i) => Ok((i, pos)),
            None => Err(ParsingError::UnknownOpcode(op.to_byte())),
        },
        Immediates::Label => match read_label(bytes, pos) {
            Ok((label_index, end)) => {
                let i = match op {
                    Opcode::Br => Instruction::Br { label_index },
                    _ => Instruction::BrIf { label_index },
                };
                Ok((i, end))
            },
            Err(e) => Err(e),
        },
        Immediates::LabelTable => match read_index(bytes, pos) {
            Ok((n, next)) => {
                match read_labels(bytes, next, n as u64 + 1) {
                    Ok((label_indexes, end)) => Ok((Instruction::BrTable { label_indexes }, end)),
                    Err(e) => Err(e),
                }
            },
            Err(e) => Err(e),
        },
        Immediates::Index => match read_index(bytes, pos) {
            Ok((index, end)) => {
                proof {
                    lemma_indexed_model(op, index);
                }
                Ok((Instruction::with_index(op, index), end))
            },
            Err(e) => Err(e),
        },
        Immediates::IndexPair => match read_index(bytes, pos) {
            Ok((table_index, next)) => match read_index(bytes, next) {
                Ok((type_index, end)) => Ok(
                    (Instruction::CallIndirect { table_index, type_index }, end),
                ),
                Err(e) => Err(e),
            },
            Err(e) => Err(e),
        },
        Immediates::MemArg => match parse_memarg(bytes, pos) {
            Ok((memarg, end)) => {
                proof {
                    lemma_memory_access_model(op, memarg);
                }
                Ok((Instruction::with_memarg(op, memarg), end))
            },
            Err(e) => Err(e),
        },
        Immediates::ConstI32 => match read_i32(bytes, pos) {
            Ok((value, end)) => Ok((Instruction::I32Const(value), end)),
            Err(e) => Err(e),
        },
        Immediates::ConstI64 => match read_i64(bytes, pos) {
            Ok((value, end)) => Ok((Instruction::I64Const(value), end)),
            Err(e) => Err(e),
        },
        Immediates::ConstF32 => match read_le_u32(bytes, pos) {
            Ok((bits, end)) => Ok((Instruction::F32Const(bits), end)),
            Err(e) => Err(e),
        },
        Immediates::ConstF64 => match read_le_u64(bytes, pos) {
            Ok((bits, end)) => Ok((Instruction::F64Const(bits), end)),
            Err(e) => Err(e),
        },
        Immediates::Byte => match read_byte(bytes, pos) {
            Ok((_, end)) => match Instruction::plain(op) {
                Some(i) => Ok((i, end)),
                None => Err(ParsingError::UnknownOpcode(op.to_byte())),
            },
            Err(e) => Err(e),
        },
        Immediates::SkippedIndex => match read_index(bytes, pos) {
            Ok((_, end)) => match Instruction::plain(op) {
                Some(i) => Ok((i, end)),
                None => Err(ParsingError::UnknownOpcode(op.to_byte())),
            },
            Err(e) => Err(e),
        },
        Immediates::SkippedTypes => match read_type_vector(bytes, pos) {
            Ok((_, end)) => match Instruction::plain(op) {
                Some(i) => Ok((i, end)),
                None => Err(ParsingError::UnknownOpcode(op.to_byte())),
            },
            Err(e) => Err(e),
        },
        _ => Err(ParsingError::UnknownOpcode(op.to_byte())),
    }
}

/// Decodes what follows the opcode `op`: its immediates and, for a block, a
/// loop or a conditional, the nested instruction lists.
pub fn parse_instruction(bytes: &[u8], pos: usize, op: Opcode) -> (r: Result<
    (Instruction, usize),
    ParsingError,
>)
    ensures
        decoded_instruction(r, spec_instruction(bytes@, pos as int, op)),
        r matches Ok((_, end)) ==> pos <= end && (pos <= bytes@.len() ==> end <= bytes@.len()),
    decreases bytes@.len() - pos, 0int,
{
    match op.immediates_kind() {
        Immediates::Block => match read_byte(bytes, pos) {
            Ok((block_type, next)) => match parse_block(bytes, next) {
                Ok((body, end)) => {
                    let i = match op {
                        Opcode::Block => Instruction::Block { block_type, body },
                        _ => Instruction::Loop { block_type, body },
                    };
                    Ok((i, end))
                },
                Err(e) => Err(e),
            },
            Err(e) => Err(e),
        },
        Immediates::If => match read_byte(bytes, pos) {
            Ok((block_type, next)) => match parse_instructions(bytes, next) {
                Ok(((then_body, terminator), middle)) => match terminator {
                    Opcode::Else => match parse_block(bytes, middle) {
                        Ok((else_body, end)) => Ok(
                            (Instruction::If { block_type, then_body, else_body }, end),
                        ),
                        Err(e) => Err(e),
                    },
                    _ => {
                        let else_body: Vec<Instruction> = Vec::new();
                        assert(code_model(else_body@) =~= Seq::empty());
                        Ok((Instruction::If { block_type, then_body, else_body }, middle))
                    },
                },
                Err(e) => Err(e),
            },
            Err(e) => Err(e),
        },
        _ => parse_flat_instruction(bytes, pos, op),
    }
}

/// Decodes instructions up to the next `End` or `Else` on the same level.
/// Returns the list and the opcode that ended it.
pub fn parse_instructions(bytes: &[u8], pos: usize) -> (r: Result<
    ((Vec<Instruction>, Opcode), usize),
    ParsingError,
>)
    ensures
        decoded_list(r, spec_instructions(bytes@, pos as int, Seq::empty())),
        r matches Ok((_, end)) ==> pos < end <= bytes@.len(),
    decreases bytes@.len() - pos, 1int,
{
    let mut instructions: Vec<Instruction> = Vec::new();
    let mut at: usize = pos;
    assert(code_model(instructions@) =~= Seq::empty());
    loop
        invariant
            pos <= at,
            spec_instructions(bytes@, pos as int, Seq::empty()) == spec_instructions(
                bytes@,
                at as int,
                code_model(instructions@),
            ),
        decreases bytes@.len() - at,
    {
        let (b, next) = read_byte(bytes, at)?;
        let op = match Opcode::from_byte(b) {
            Some(op) => op,
            None => {
                return Err(ParsingError::UnknownOpcode(b));
            },
        };
        match op.immediates_kind() {
            Immediates::Terminator => {
                return Ok(((instructions, op), next));
            },
            _ => {},
        }
        let (instruction, end) = parse_instruction(bytes, next, op)?;
        proof {
            lemma_code_model_push(instructions@, instruction);
        }
        instructions.push(instruction);
        at = end;
    }
}

/// Decodes an instruction list that ends with `End`.
pub fn parse_block(bytes: &[u8], pos: usize) -> (r: Result<(Vec<Instruction>, usize), ParsingError>)
    ensures
        decoded_code(r, spec_body(bytes@, pos as int)),
        r matches Ok((_, end)) ==> pos < end <= bytes@.len(),
    decreases bytes@.len() - pos, 2int,
{
    match parse_instructions(bytes, pos) {
        Ok(((code, terminator), end)) => match terminator {
            Opcode::End => Ok((code, end)),
            _ => Err(ParsingError::ExpectedOpcode(Opcode::End)),
        },
        Err(e) => Err(e),
    }
}

} // verus!
