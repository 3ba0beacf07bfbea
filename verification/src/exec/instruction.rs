//! The instruction catalog: one variant per opcode, with its immediates.

use vstd::prelude::*;
use crate::parse::opcode::Opcode;

verus! {

/// The immediate of a memory instruction.  `offset` is added to the address
/// taken from the operand stack; `align` is a hint and changes no result.
#[derive(Clone, Copy, Debug, Default, PartialEq, Eq, Structural)]
pub struct MemArg {
    pub align: usize,
    pub offset: usize,
}

/// What follows an opcode in the instruction stream.
#[derive(Clone, Copy, Debug, PartialEq, Eq, Structural)]
pub enum Immediates {
    /// Nothing.
    Plain,
    /// A block-type byte and a nested instruction list.
    Block,
    /// A block-type byte and one or two nested instruction lists.
    If,
    /// A label index.
    Label,
    /// A vector of label indexes and a default label index.
    LabelTable,
    /// One index.
    Index,
    /// Two indexes.
    IndexPair,
    /// An alignment and an offset.
    MemArg,
    /// A signed 32-bit number.
    ConstI32,
    /// A signed 64-bit number.
    ConstI64,
    /// Four bytes.
    ConstF32,
    /// Eight bytes.
    ConstF64,
    /// One byte, which the catalog does not keep.
    Byte,
    /// One index, which the catalog does not keep.
    SkippedIndex,
    /// A vector of type tags, which the catalog does not keep.
    SkippedTypes,
    /// Immediates that the decoder cannot delimit.
    Unsupported,
    /// The opcode ends an instruction list and is no instruction.
    Terminator,
}

impl Opcode {
    /// What follows this opcode in the instruction stream.
    pub open spec fn immediates(self) -> Immediates {
        match self {
            Opcode::Block
            | Opcode::Loop => Immediates::Block,
            Opcode::If => Immediates::If,
            Opcode::Br
            | Opcode::BrIf => Immediates::Label,
            Opcode::BrTable => Immediates::LabelTable,
            Opcode::Call
            | Opcode::LocalGet
            | Opcode::LocalSet
            | Opcode::LocalTee
            | Opcode::GlobalGet
            | Opcode::GlobalSet
            | Opcode::TableGet
            | Opcode::TableSet => Immediates::Index,
            Opcode::CallIndirect => Immediates::IndexPair,
            Opcode::I32Load
            | Opcode::I64Load
            | Opcode::F32Load
            | Opcode::F64Load
            | Opcode::I32Load8s
            | Opcode::I32Load8u
            | Opcode::I32Load16s
            | Opcode::I32Load16u
            | Opcode::I64Load8s
            | Opcode::I64Load8u
            | Opcode::I64Load16s
            | Opcode::I64Load16u
            | Opcode::I64Load32s
            | Opcode::I64Load32u
            | Opcode::I32Store
            | Opcode::I64Store
            | Opcode::F32Store
            | Opcode::F64Store
            | Opcode::I32Store8
            | Opcode::I32Store16
            | Opcode::I64Store8
            | Opcode::I64Store16
            | Opcode::I64Store32 => Immediates::MemArg,
            Opcode::I32Const => Immediates::ConstI32,
            Opcode::I64Const => Immediates::ConstI64,
            Opcode::F32Const => Immediates::ConstF32,
            Opcode::F64Const => Immediates::ConstF64,
            Opcode::MemorySize
            | Opcode::MemoryGrow
            | Opcode::RefNull => Immediates::Byte,
            Opcode::RefFunc => Immediates::SkippedIndex,
            Opcode::SelectValueType => Immediates::SkippedTypes,
            Opcode::Extension => Immediates::Unsupported,
            Opcode::Else
            | Opcode::End => Immediates::Terminator,
            _ => Immediates::Plain,
        }
    }

    /// Tells what follows this opcode in the instruction stream.
    pub fn immediates_kind(&self) -> (k: Immediates)
        ensures
            k == self.immediates(),
    {
        match self {
            Opcode::Block
            | Opcode::Loop => Immediates::Block,
            Opcode::If => Immediates::If,
            Opcode::Br
            | Opcode::BrIf => Immediates::Label,
            Opcode::BrTable => Immediates::LabelTable,
            Opcode::Call
            | Opcode::LocalGet
            | Opcode::LocalSet
            | Opcode::LocalTee
            | Opcode::GlobalGet
            | Opcode::GlobalSet
            | Opcode::TableGet
            | Opcode::TableSet => Immediates::Index,
            Opcode::CallIndirect => Immediates::IndexPair,
            Opcode::I32Load
            | Opcode::I64Load
            | Opcode::F32Load
            | Opcode::F64Load
            | Opcode::I32Load8s
            | Opcode::I32Load8u
            | Opcode::I32Load16s
            | Opcode::I32Load16u
            | Opcode::I64Load8s
            | Opcode::I64Load8u
            | Opcode::I64Load16s
            | Opcode::I64Load16u
            | Opcode::I64Load32s
            | Opcode::I64Load32u
            | Opcode::I32Store
            | Opcode::I64Store
            | Opcode::F32Store
            | Opcode::F64Store
            | Opcode::I32Store8
            | Opcode::I32Store16
            | Opcode::I64Store8
            | Opcode::I64Store16
            | Opcode::I64Store32 => Immediates::MemArg,
            Opcode::I32Const => Immediates::ConstI32,
            Opcode::I64Const => Immediates::ConstI64,
            Opcode::F32Const => Immediates::ConstF32,
            Opcode::F64Const => Immediates::ConstF64,
            Opcode::MemorySize
            | Opcode::MemoryGrow
            | Opcode::RefNull => Immediates::Byte,
            Opcode::RefFunc => Immediates::SkippedIndex,
            Opcode::SelectValueType => Immediates::SkippedTypes,
            Opcode::Extension => Immediates::Unsupported,
            Opcode::Else
            | Opcode::End => Immediates::Terminator,
            _ => Immediates::Plain,
        }
    }
}

/// A decoded instruction.
#[derive(Debug, PartialEq, Eq)]
pub enum Instruction {
    Unreachable,
    Nop,
    /// A block: its type marker and its body.
    Block { block_type: u8, body: Vec<Instruction> },
    /// A loop: its type marker and its body.
    Loop { block_type: u8, body: Vec<Instruction> },
    /// A conditional: its type marker and the two branches.
    If { block_type: u8, then_body: Vec<Instruction>, else_body: Vec<Instruction> },
    Br { label_index: u8 },
    BrIf { label_index: u8 },
    /// A branch table: the targets, the default target last.
    BrTable { label_indexes: Vec<u8> },
    Return,
    Call { function_index: usize },
    CallIndirect { table_index: usize, type_index: usize },
    Drop,
    Select,
    SelectValueType,
    LocalGet(usize),
    LocalSet(usize),
    LocalTee(usize),
    GlobalGet(usize),
    GlobalSet(usize),
    TableGet(usize),
    TableSet(usize),
    I32Load(MemArg),
    I64Load(MemArg),
    F32Load(MemArg),
    F64Load(MemArg),
    I32Load8s(MemArg),
    I32Load8u(MemArg),
    I32Load16s(MemArg),
    I32Load16u(MemArg),
    I64Load8s(MemArg),
    I64Load8u(MemArg),
    I64Load16s(MemArg),
    I64Load16u(MemArg),
    I64Load32s(MemArg),
    I64Load32u(MemArg),
    I32Store(MemArg),
    I64Store(MemArg),
    F32Store(MemArg),
    F64Store(MemArg),
    I32Store8(MemArg),
    I32Store16(MemArg),
    I64Store8(MemArg),
    I64Store16(MemArg),
    I64Store32(MemArg),
    MemorySize,
    MemoryGrow,
    I32Const(i32),
    I64Const(i64),
    /// A 32-bit float constant, held as its IEEE-754 bit pattern.
    F32Const(u32),
    /// A 64-bit float constant, held as its IEEE-754 bit pattern.
    F64Const(u64),
    I32Eqz,
    I32Eq,
    I32Ne,
    I32LtS,
    I32LtU,
    I32GtS,
    I32GtU,
    I32LeS,
    I32LeU,
    I32GeS,
    I32GeU,
    I64Eqz,
    I64Eq,
    I64Ne,
    I64LtS,
    I64LtU,
    I64GtS,
    I64GtU,
    I64LeS,
    I64LeU,
    I64GeS,
    I64GeU,
    F32Eq,
    F32Ne,
    F32Lt,
    F32Gt,
    F32Le,
    F32Ge,
    F64Eq,
    F64Ne,
    F64Lt,
    F64Gt,
    F64Le,
    F64Ge,
    I32Clz,
    I32Ctz,
    I32Popcnt,
    I32Add,
    I32Sub,
    I32Mul,
    I32DivS,
    I32DivU,
    I32RemS,
    I32RemU,
    I32And,
    I32Or,
    I32Xor,
    I32Shl,
    I32ShrS,
    I32ShrU,
    I32Rotl,
    I32Rotr,
    I64Clz,
    I64Ctz,
    I64Popcnt,
    I64Add,
    I64Sub,
    I64Mul,
    I64DivS,
    I64DivU,
    I64RemS,
    I64RemU,
    I64And,
    I64Or,
    I64Xor,
    I64Shl,
    I64ShrS,
    I64ShrU,
    I64Rotl,
    I64Rotr,
    F32Abs,
    F32Neg,
    F32Ceil,
    F32Floor,
    F32Trunc,
    F32Nearest,
    F32Sqrt,
    F32Add,
    F32Sub,
    F32Mul,
    F32Div,
    F32Min,
    F32Max,
    F32Copysign,
    F64Abs,
    F64Neg,
    F64Ceil,
    F64Floor,
    F64Trunc,
    F64Nearest,
    F64Sqrt,
    F64Add,
    F64Sub,
    F64Mul,
    F64Div,
    F64Min,
    F64Max,
    F64Copysign,
    I32WrapI64,
    I32TruncF32S,
    I32TruncF32U,
    I32TruncF64S,
    I32TruncF64U,
    I64ExtendI32S,
    I64ExtendI32U,
    I64TruncF32S,
    I64TruncF32U,
    I64TruncF64S,
    I64TruncF64U,
    F32ConvertI32S,
    F32ConvertI32U,
    F32ConvertI64S,
    F32ConvertI64U,
    F32DemoteF64,
    F64ConvertI32S,
    F64ConvertI32U,
    F64ConvertI64S,
    F64ConvertI64U,
    F64PromoteF32,
    I32ReinterpretF32,
    I64ReinterpretF64,
    F32ReinterpretI32,
    F64ReinterpretI64,
    I32Extend8S,
    I32Extend16S,
    I64Extend8S,
    I64Extend16S,
    I64Extend32S,
    RefNull,
    RefIsNull,
    RefFunc,
    Extension,
}

impl Instruction {
    /// The opcode that encodes this instruction.
    pub open spec fn opcode(&self) -> Opcode {
        match self {
            Instruction::Unreachable => Opcode::Unreachable,
            Instruction::Nop => Opcode::Nop,
            Instruction::Block { .. } => Opcode::Block,
            Instruction::Loop { .. } => Opcode::Loop,
            Instruction::If { .. } => Opcode::If,
            Instruction::Br { .. } => Opcode::Br,
            Instruction::BrIf { .. } => Opcode::BrIf,
            Instruction::BrTable { .. } => Opcode::BrTable,
            Instruction::Return => Opcode::Return,
            Instruction::Call { .. } => Opcode::Call,
            Instruction::CallIndirect { .. } => Opcode::CallIndirect,
            Instruction::Drop => Opcode::Drop,
            Instruction::Select => Opcode::Select,
            Instruction::SelectValueType => Opcode::SelectValueType,
            Instruction::LocalGet(..) => Opcode::LocalGet,
            Instruction::LocalSet(..) => Opcode::LocalSet,
            Instruction::LocalTee(..) => Opcode::LocalTee,
            Instruction::GlobalGet(..) => Opcode::GlobalGet,
            Instruction::GlobalSet(..) => Opcode::GlobalSet,
            Instruction::TableGet(..) => Opcode::TableGet,
            Instruction::TableSet(..) => Opcode::TableSet,
            Instruction::I32Load(..) => Opcode::I32Load,
            Instruction::I64Load(..) => Opcode::I64Load,
            Instruction::F32Load(..) => Opcode::F32Load,
            Instruction::F64Load(..) => Opcode::F64Load,
            Instruction::I32Load8s(..) => Opcode::I32Load8s,
            Instruction::I32Load8u(..) => Opcode::I32Load8u,
            Instruction::I32Load16s(..) => Opcode::I32Load16s,
            Instruction::I32Load16u(..) => Opcode::I32Load16u,
            Instruction::I64Load8s(..) => Opcode::I64Load8s,
            Instruction::I64Load8u(..) => Opcode::I64Load8u,
            Instruction::I64Load16s(..) => Opcode::I64Load16s,
            Instruction::I64Load16u(..) => Opcode::I64Load16u,
            Instruction::I64Load32s(..) => Opcode::I64Load32s,
            Instruction::I64Load32u(..) => Opcode::I64Load32u,
            Instruction::I32Store(..) => Opcode::I32Store,
            Instruction::I64Store(..) => Opcode::I64Store,
            Instruction::F32Store(..) => Opcode::F32Store,
            Instruction::F64Store(..) => Opcode::F64Store,
            Instruction::I32Store8(..) => Opcode::I32Store8,
            Instruction::I32Store16(..) => Opcode::I32Store16,
            Instruction::I64Store8(..) => Opcode::I64Store8,
            Instruction::I64Store16(..) => Opcode::I64Store16,
            Instruction::I64Store32(..) => Opcode::I64Store32,
            Instruction::MemorySize => Opcode::MemorySize,
            Instruction::MemoryGrow => Opcode::MemoryGrow,
            Instruction::I32Const(..) => Opcode::I32Const,
            Instruction::I64Const(..) => Opcode::I64Const,
            Instruction::F32Const(..) => Opcode::F32Const,
            Instruction::F64Const(..) => Opcode::F64Const,
            Instruction::I32Eqz => Opcode::I32Eqz,
            Instruction::I32Eq => Opcode::I32Eq,
            Instruction::I32Ne => Opcode::I32Ne,
            Instruction::I32LtS => Opcode::I32LtS,
            Instruction::I32LtU => Opcode::I32LtU,
            Instruction::I32GtS => Opcode::I32GtS,
            Instruction::I32GtU => Opcode::I32GtU,
            Instruction::I32LeS => Opcode::I32LeS,
            Instruction::I32LeU => Opcode::I32LeU,
            Instruction::I32GeS => Opcode::I32GeS,
            Instruction::I32GeU => Opcode::I32GeU,
            Instruction::I64Eqz => Opcode::I64Eqz,
            Instruction::I64Eq => Opcode::I64Eq,
            Instruction::I64Ne => Opcode::I64Ne,
            Instruction::I64LtS => Opcode::I64LtS,
            Instruction::I64LtU => Opcode::I64LtU,
            Instruction::I64GtS => Opcode::I64GtS,
            Instruction::I64GtU => Opcode::I64GtU,
            Instruction::I64LeS => Opcode::I64LeS,
            Instruction::I64LeU => Opcode::I64LeU,
            Instruction::I64GeS => Opcode::I64GeS,
            Instruction::I64GeU => Opcode::I64GeU,
            Instruction::F32Eq => Opcode::F32Eq,
            Instruction::F32Ne => Opcode::F32Ne,
            Instruction::F32Lt => Opcode::F32Lt,
            Instruction::F32Gt => Opcode::F32Gt,
            Instruction::F32Le => Opcode::F32Le,
            Instruction::F32Ge => Opcode::F32Ge,
            Instruction::F64Eq => Opcode::F64Eq,
            Instruction::F64Ne => Opcode::F64Ne,
            Instruction::F64Lt => Opcode::F64Lt,
            Instruction::F64Gt => Opcode::F64Gt,
            Instruction::F64Le => Opcode::F64Le,
            Instruction::F64Ge => Opcode::F64Ge,
            Instruction::I32Clz => Opcode::I32Clz,
            Instruction::I32Ctz => Opcode::I32Ctz,
            Instruction::I32Popcnt => Opcode::I32Popcnt,
            Instruction::I32Add => Opcode::I32Add,
            Instruction::I32Sub => Opcode::I32Sub,
            Instruction::I32Mul => Opcode::I32Mul,
            Instruction::I32DivS => Opcode::I32DivS,
            Instruction::I32DivU => Opcode::I32DivU,
            Instruction::I32RemS => Opcode::I32RemS,
            Instruction::I32RemU => Opcode::I32RemU,
            Instruction::I32And => Opcode::I32And,
            Instruction::I32Or => Opcode::I32Or,
            Instruction::I32Xor => Opcode::I32Xor,
            Instruction::I32Shl => Opcode::I32Shl,
            Instruction::I32ShrS => Opcode::I32ShrS,
            Instruction::I32ShrU => Opcode::I32ShrU,
            Instruction::I32Rotl => Opcode::I32Rotl,
            Instruction::I32Rotr => Opcode::I32Rotr,
            Instruction::I64Clz => Opcode::I64Clz,
            Instruction::I64Ctz => Opcode::I64Ctz,
            Instruction::I64Popcnt => Opcode::I64Popcnt,
            Instruction::I64Add => Opcode::I64Add,
            Instruction::I64Sub => Opcode::I64Sub,
            Instruction::I64Mul => Opcode::I64Mul,
            Instruction::I64DivS => Opcode::I64DivS,
            Instruction::I64DivU => Opcode::I64DivU,
            Instruction::I64RemS => Opcode::I64RemS,
            Instruction::I64RemU => Opcode::I64RemU,
            Instruction::I64And => Opcode::I64And,
            Instruction::I64Or => Opcode::I64Or,
            Instruction::I64Xor => Opcode::I64Xor,
            Instruction::I64Shl => Opcode::I64Shl,
            Instruction::I64ShrS => Opcode::I64ShrS,
            Instruction::I64ShrU => Opcode::I64ShrU,
            Instruction::I64Rotl => Opcode::I64Rotl,
            Instruction::I64Rotr => Opcode::I64Rotr,
            Instruction::F32Abs => Opcode::F32Abs,
            Instruction::F32Neg => Opcode::F32Neg,
            Instruction::F32Ceil => Opcode::F32Ceil,
            Instruction::F32Floor => Opcode::F32Floor,
            Instruction::F32Trunc => Opcode::F32Trunc,
            Instruction::F32Nearest => Opcode::F32Nearest,
            Instruction::F32Sqrt => Opcode::F32Sqrt,
            Instruction::F32Add => Opcode::F32Add,
            Instruction::F32Sub => Opcode::F32Sub,
            Instruction::F32Mul => Opcode::F32Mul,
            Instruction::F32Div => Opcode::F32Div,
            Instruction::F32Min => Opcode::F32Min,
            Instruction::F32Max => Opcode::F32Max,
            Instruction::F32Copysign => Opcode::F32Copysign,
            Instruction::F64Abs => Opcode::F64Abs,
            Instruction::F64Neg => Opcode::F64Neg,
            Instruction::F64Ceil => Opcode::F64Ceil,
            Instruction::F64Floor => Opcode::F64Floor,
            Instruction::F64Trunc => Opcode::F64Trunc,
            Instruction::F64Nearest => Opcode::F64Nearest,
            Instruction::F64Sqrt => Opcode::F64Sqrt,
            Instruction::F64Add => Opcode::F64Add,
            Instruction::F64Sub => Opcode::F64Sub,
            Instruction::F64Mul => Opcode::F64Mul,
            Instruction::F64Div => Opcode::F64Div,
            Instruction::F64Min => Opcode::F64Min,
            Instruction::F64Max => Opcode::F64Max,
            Instruction::F64Copysign => Opcode::F64Copysign,
            Instruction::I32WrapI64 => Opcode::I32WrapI64,
            Instruction::I32TruncF32S => Opcode::I32TruncF32S,
            Instruction::I32TruncF32U => Opcode::I32TruncF32U,
            Instruction::I32TruncF64S => Opcode::I32TruncF64S,
            Instruction::I32TruncF64U => Opcode::I32TruncF64U,
            Instruction::I64ExtendI32S => Opcode::I64ExtendI32S,
            Instruction::I64ExtendI32U => Opcode::I64ExtendI32U,
            Instruction::I64TruncF32S => Opcode::I64TruncF32S,
            Instruction::I64TruncF32U => Opcode::I64TruncF32U,
            Instruction::I64TruncF64S => Opcode::I64TruncF64S,
            Instruction::I64TruncF64U => Opcode::I64TruncF64U,
            Instruction::F32ConvertI32S => Opcode::F32ConvertI32S,
            Instruction::F32ConvertI32U => Opcode::F32ConvertI32U,
            Instruction::F32ConvertI64S => Opcode::F32ConvertI64S,
            Instruction::F32ConvertI64U => Opcode::F32ConvertI64U,
            Instruction::F32DemoteF64 => Opcode::F32DemoteF64,
            Instruction::F64ConvertI32S => Opcode::F64ConvertI32S,
            Instruction::F64ConvertI32U => Opcode::F64ConvertI32U,
            Instruction::F64ConvertI64S => Opcode::F64ConvertI64S,
            Instruction::F64ConvertI64U => Opcode::F64ConvertI64U,
            Instruction::F64PromoteF32 => Opcode::F64PromoteF32,
            Instruction::I32ReinterpretF32 => Opcode::I32ReinterpretF32,
            Instruction::I64ReinterpretF64 => Opcode::I64ReinterpretF64,
            Instruction::F32ReinterpretI32 => Opcode::F32ReinterpretI32,
            Instruction::F64ReinterpretI64 => Opcode::F64ReinterpretI64,
            Instruction::I32Extend8S => Opcode::I32Extend8S,
            Instruction::I32Extend16S => Opcode::I32Extend16S,
            Instruction::I64Extend8S => Opcode::I64Extend8S,
            Instruction::I64Extend16S => Opcode::I64Extend16S,
            Instruction::I64Extend32S => Opcode::I64Extend32S,
            Instruction::RefNull => Opcode::RefNull,
            Instruction::RefIsNull => Opcode::RefIsNull,
            Instruction::RefFunc => Opcode::RefFunc,
            Instruction::Extension => Opcode::Extension,
        }
    }

    /// Tells the opcode that encodes this instruction.
    pub fn opcode_of(&self) -> (op: Opcode)
        ensures
            op == self.opcode(),
    {
        match self {
            Instruction::Unreachable => Opcode::Unreachable,
            Instruction::Nop => Opcode::Nop,
            Instruction::Block { .. } => Opcode::Block,
            Instruction::Loop { .. } => Opcode::Loop,
            Instruction::If { .. } => Opcode::If,
            Instruction::Br { .. } => Opcode::Br,
            Instruction::BrIf { .. } => Opcode::BrIf,
            Instruction::BrTable { .. } => Opcode::BrTable,
            Instruction::Return => Opcode::Return,
            Instruction::Call { .. } => Opcode::Call,
            Instruction::CallIndirect { .. } => Opcode::CallIndirect,
            Instruction::Drop => Opcode::Drop,
            Instruction::Select => Opcode::Select,
            Instruction::SelectValueType => Opcode::SelectValueType,
            Instruction::LocalGet(..) => Opcode::LocalGet,
            Instruction::LocalSet(..) => Opcode::LocalSet,
            Instruction::LocalTee(..) => Opcode::LocalTee,
            Instruction::GlobalGet(..) => Opcode::GlobalGet,
            Instruction::GlobalSet(..) => Opcode::GlobalSet,
            Instruction::TableGet(..) => Opcode::TableGet,
            Instruction::TableSet(..) => Opcode::TableSet,
            Instruction::I32Load(..) => Opcode::I32Load,
            Instruction::I64Load(..) => Opcode::I64Load,
            Instruction::F32Load(..) => Opcode::F32Load,
            Instruction::F64Load(..) => Opcode::F64Load,
            Instruction::I32Load8s(..) => Opcode::I32Load8s,
            Instruction::I32Load8u(..) => Opcode::I32Load8u,
            Instruction::I32Load16s(..) => Opcode::I32Load16s,
            Instruction::I32Load16u(..) => Opcode::I32Load16u,
            Instruction::I64Load8s(..) => Opcode::I64Load8s,
            Instruction::I64Load8u(..) => Opcode::I64Load8u,
            Instruction::I64Load16s(..) => Opcode::I64Load16s,
            Instruction::I64Load16u(..) => Opcode::I64Load16u,
            Instruction::I64Load32s(..) => Opcode::I64Load32s,
            Instruction::I64Load32u(..) => Opcode::I64Load32u,
            Instruction::I32Store(..) => Opcode::I32Store,
            Instruction::I64Store(..) => Opcode::I64Store,
            Instruction::F32Store(..) => Opcode::F32Store,
            Instruction::F64Store(..) => Opcode::F64Store,
            Instruction::I32Store8(..) => Opcode::I32Store8,
            Instruction::I32Store16(..) => Opcode::I32Store16,
            Instruction::I64Store8(..) => Opcode::I64Store8,
            Instruction::I64Store16(..) => Opcode::I64Store16,
            Instruction::I64Store32(..) => Opcode::I64Store32,
            Instruction::MemorySize => Opcode::MemorySize,
            Instruction::MemoryGrow => Opcode::MemoryGrow,
            Instruction::I32Const(..) => Opcode::I32Const,
            Instruction::I64Const(..) => Opcode::I64Const,
            Instruction::F32Const(..) => Opcode::F32Const,
            Instruction::F64Const(..) => Opcode::F64Const,
            Instruction::I32Eqz => Opcode::I32Eqz,
            Instruction::I32Eq => Opcode::I32Eq,
            Instruction::I32Ne => Opcode::I32Ne,
            Instruction::I32LtS => Opcode::I32LtS,
            Instruction::I32LtU => Opcode::I32LtU,
            Instruction::I32GtS => Opcode::I32GtS,
            Instruction::I32GtU => Opcode::I32GtU,
            Instruction::I32LeS => Opcode::I32LeS,
            Instruction::I32LeU => Opcode::I32LeU,
            Instruction::I32GeS => Opcode::I32GeS,
            Instruction::I32GeU => Opcode::I32GeU,
            Instruction::I64Eqz => Opcode::I64Eqz,
            Instruction::I64Eq => Opcode::I64Eq,
            Instruction::I64Ne => Opcode::I64Ne,
            Instruction::I64LtS => Opcode::I64LtS,
            Instruction::I64LtU => Opcode::I64LtU,
            Instruction::I64GtS => Opcode::I64GtS,
            Instruction::I64GtU => Opcode::I64GtU,
            Instruction::I64LeS => Opcode::I64LeS,
            Instruction::I64LeU => Opcode::I64LeU,
            Instruction::I64GeS => Opcode::I64GeS,
            Instruction::I64GeU => Opcode::I64GeU,
            Instruction::F32Eq => Opcode::F32Eq,
            Instruction::F32Ne => Opcode::F32Ne,
            Instruction::F32Lt => Opcode::F32Lt,
            Instruction::F32Gt => Opcode::F32Gt,
            Instruction::F32Le => Opcode::F32Le,
            Instruction::F32Ge => Opcode::F32Ge,
            Instruction::F64Eq => Opcode::F64Eq,
            Instruction::F64Ne => Opcode::F64Ne,
            Instruction::F64Lt => Opcode::F64Lt,
            Instruction::F64Gt => Opcode::F64Gt,
            Instruction::F64Le => Opcode::F64Le,
            Instruction::F64Ge => Opcode::F64Ge,
            Instruction::I32Clz => Opcode::I32Clz,
            Instruction::I32Ctz => Opcode::I32Ctz,
            Instruction::I32Popcnt => Opcode::I32Popcnt,
            Instruction::I32Add => Opcode::I32Add,
            Instruction::I32Sub => Opcode::I32Sub,
            Instruction::I32Mul => Opcode::I32Mul,
            Instruction::I32DivS => Opcode::I32DivS,
            Instruction::I32DivU => Opcode::I32DivU,
            Instruction::I32RemS => Opcode::I32RemS,
            Instruction::I32RemU => Opcode::I32RemU,
            Instruction::I32And => Opcode::I32And,
            Instruction::I32Or => Opcode::I32Or,
            Instruction::I32Xor => Opcode::I32Xor,
            Instruction::I32Shl => Opcode::I32Shl,
            Instruction::I32ShrS => Opcode::I32ShrS,
            Instruction::I32ShrU => Opcode::I32ShrU,
            Instruction::I32Rotl => Opcode::I32Rotl,
            Instruction::I32Rotr => Opcode::I32Rotr,
            Instruction::I64Clz => Opcode::I64Clz,
            Instruction::I64Ctz => Opcode::I64Ctz,
            Instruction::I64Popcnt => Opcode::I64Popcnt,
            Instruction::I64Add => Opcode::I64Add,
            Instruction::I64Sub => Opcode::I64Sub,
            Instruction::I64Mul => Opcode::I64Mul,
            Instruction::I64DivS => Opcode::I64DivS,
            Instruction::I64DivU => Opcode::I64DivU,
            Instruction::I64RemS => Opcode::I64RemS,
            Instruction::I64RemU => Opcode::I64RemU,
            Instruction::I64And => Opcode::I64And,
            Instruction::I64Or => Opcode::I64Or,
            Instruction::I64Xor => Opcode::I64Xor,
            Instruction::I64Shl => Opcode::I64Shl,
            Instruction::I64ShrS => Opcode::I64ShrS,
            Instruction::I64ShrU => Opcode::I64ShrU,
            Instruction::I64Rotl => Opcode::I64Rotl,
            Instruction::I64Rotr => Opcode::I64Rotr,
            Instruction::F32Abs => Opcode::F32Abs,
            Instruction::F32Neg => Opcode::F32Neg,
            Instruction::F32Ceil => Opcode::F32Ceil,
            Instruction::F32Floor => Opcode::F32Floor,
            Instruction::F32Trunc => Opcode::F32Trunc,
            Instruction::F32Nearest => Opcode::F32Nearest,
            Instruction::F32Sqrt => Opcode::F32Sqrt,
            Instruction::F32Add => Opcode::F32Add,
            Instruction::F32Sub => Opcode::F32Sub,
            Instruction::F32Mul => Opcode::F32Mul,
            Instruction::F32Div => Opcode::F32Div,
            Instruction::F32Min => Opcode::F32Min,
            Instruction::F32Max => Opcode::F32Max,
            Instruction::F32Copysign => Opcode::F32Copysign,
            Instruction::F64Abs => Opcode::F64Abs,
            Instruction::F64Neg => Opcode::F64Neg,
            Instruction::F64Ceil => Opcode::F64Ceil,
            Instruction::F64Floor => Opcode::F64Floor,
            Instruction::F64Trunc => Opcode::F64Trunc,
            Instruction::F64Nearest => Opcode::F64Nearest,
            Instruction::F64Sqrt => Opcode::F64Sqrt,
            Instruction::F64Add => Opcode::F64Add,
            Instruction::F64Sub => Opcode::F64Sub,
            Instruction::F64Mul => Opcode::F64Mul,
            Instruction::F64Div => Opcode::F64Div,
            Instruction::F64Min => Opcode::F64Min,
            Instruction::F64Max => Opcode::F64Max,
            Instruction::F64Copysign => Opcode::F64Copysign,
            Instruction::I32WrapI64 => Opcode::I32WrapI64,
            Instruction::I32TruncF32S => Opcode::I32TruncF32S,
            Instruction::I32TruncF32U => Opcode::I32TruncF32U,
            Instruction::I32TruncF64S => Opcode::I32TruncF64S,
            Instruction::I32TruncF64U => Opcode::I32TruncF64U,
            Instruction::I64ExtendI32S => Opcode::I64ExtendI32S,
            Instruction::I64ExtendI32U => Opcode::I64ExtendI32U,
            Instruction::I64TruncF32S => Opcode::I64TruncF32S,
            Instruction::I64TruncF32U => Opcode::I64TruncF32U,
            Instruction::I64TruncF64S => Opcode::I64TruncF64S,
            Instruction::I64TruncF64U => Opcode::I64TruncF64U,
            Instruction::F32ConvertI32S => Opcode::F32ConvertI32S,
            Instruction::F32ConvertI32U => Opcode::F32ConvertI32U,
            Instruction::F32ConvertI64S => Opcode::F32ConvertI64S,
            Instruction::F32ConvertI64U => Opcode::F32ConvertI64U,
            Instruction::F32DemoteF64 => Opcode::F32DemoteF64,
            Instruction::F64ConvertI32S => Opcode::F64ConvertI32S,
            Instruction::F64ConvertI32U => Opcode::F64ConvertI32U,
            Instruction::F64ConvertI64S => Opcode::F64ConvertI64S,
            Instruction::F64ConvertI64U => Opcode::F64ConvertI64U,
            Instruction::F64PromoteF32 => Opcode::F64PromoteF32,
            Instruction::I32ReinterpretF32 => Opcode::I32ReinterpretF32,
            Instruction::I64ReinterpretF64 => Opcode::I64ReinterpretF64,
            Instruction::F32ReinterpretI32 => Opcode::F32ReinterpretI32,
            Instruction::F64ReinterpretI64 => Opcode::F64ReinterpretI64,
            Instruction::I32Extend8S => Opcode::I32Extend8S,
            Instruction::I32Extend16S => Opcode::I32Extend16S,
            Instruction::I64Extend8S => Opcode::I64Extend8S,
            Instruction::I64Extend16S => Opcode::I64Extend16S,
            Instruction::I64Extend32S => Opcode::I64Extend32S,
            Instruction::RefNull => Opcode::RefNull,
            Instruction::RefIsNull => Opcode::RefIsNull,
            Instruction::RefFunc => Opcode::RefFunc,
            Instruction::Extension => Opcode::Extension,
        }
    }

    /// Whether this instruction holds nothing besides its opcode.
    pub open spec fn is_plain(&self) -> bool {
        match self {
            Instruction::Block { .. }
            | Instruction::Loop { .. }
            | Instruction::If { .. }
            | Instruction::Br { .. }
            | Instruction::BrIf { .. }
            | Instruction::BrTable { .. }
            | Instruction::Call { .. }
            | Instruction::CallIndirect { .. }
            | Instruction::LocalGet(..)
            | Instruction::LocalSet(..)
            | Instruction::LocalTee(..)
            | Instruction::GlobalGet(..)
            | Instruction::GlobalSet(..)
            | Instruction::TableGet(..)
            | Instruction::TableSet(..)
            | Instruction::I32Load(..)
            | Instruction::I64Load(..)
            | Instruction::F32Load(..)
            | Instruction::F64Load(..)
            | Instruction::I32Load8s(..)
            | Instruction::I32Load8u(..)
            | Instruction::I32Load16s(..)
            | Instruction::I32Load16u(..)
            | Instruction::I64Load8s(..)
            | Instruction::I64Load8u(..)
            | Instruction::I64Load16s(..)
            | Instruction::I64Load16u(..)
            | Instruction::I64Load32s(..)
            | Instruction::I64Load32u(..)
            | Instruction::I32Store(..)
            | Instruction::I64Store(..)
            | Instruction::F32Store(..)
            | Instruction::F64Store(..)
            | Instruction::I32Store8(..)
            | Instruction::I32Store16(..)
            | Instruction::I64Store8(..)
            | Instruction::I64Store16(..)
            | Instruction::I64Store32(..)
            | Instruction::I32Const(..)
            | Instruction::I64Const(..)
            | Instruction::F32Const(..)
            | Instruction::F64Const(..) => false,
            _ => true,
        }
    }

    /// The instruction that holds nothing besides the opcode `op`, if the
    /// catalog has one.
    pub open spec fn plain_of(op: Opcode) -> Option<Instruction> {
        match op {
            Opcode::Unreachable => Some(Instruction::Unreachable),
            Opcode::Nop => Some(Instruction::Nop),
            Opcode::Return => Some(Instruction::Return),
            Opcode::Drop => Some(Instruction::Drop),
            Opcode::Select => Some(Instruction::Select),
            Opcode::SelectValueType => Some(Instruction::SelectValueType),
            Opcode::MemorySize => Some(Instruction::MemorySize),
            Opcode::MemoryGrow => Some(Instruction::MemoryGrow),
            Opcode::I32Eqz => Some(Instruction::I32Eqz),
            Opcode::I32Eq => Some(Instruction::I32Eq),
            Opcode::I32Ne => Some(Instruction::I32Ne),
            Opcode::I32LtS => Some(Instruction::I32LtS),
            Opcode::I32LtU => Some(Instruction::I32LtU),
            Opcode::I32GtS => Some(Instruction::I32GtS),
            Opcode::I32GtU => Some(Instruction::I32GtU),
            Opcode::I32LeS => Some(Instruction::I32LeS),
            Opcode::I32LeU => Some(Instruction::I32LeU),
            Opcode::I32GeS => Some(Instruction::I32GeS),
            Opcode::I32GeU => Some(Instruction::I32GeU),
            Opcode::I64Eqz => Some(Instruction::I64Eqz),
            Opcode::I64Eq => Some(Instruction::I64Eq),
            Opcode::I64Ne => Some(Instruction::I64Ne),
            Opcode::I64LtS => Some(Instruction::I64LtS),
            Opcode::I64LtU => Some(Instruction::I64LtU),
            Opcode::I64GtS => Some(Instruction::I64GtS),
            Opcode::I64GtU => Some(Instruction::I64GtU),
            Opcode::I64LeS => Some(Instruction::I64LeS),
            Opcode::I64LeU => Some(Instruction::I64LeU),
            Opcode::I64GeS => Some(Instruction::I64GeS),
            Opcode::I64GeU => Some(Instruction::I64GeU),
            Opcode::F32Eq => Some(Instruction::F32Eq),
            Opcode::F32Ne => Some(Instruction::F32Ne),
            Opcode::F32Lt => Some(Instruction::F32Lt),
            Opcode::F32Gt => Some(Instruction::F32Gt),
            Opcode::F32Le => Some(Instruction::F32Le),
            Opcode::F32Ge => Some(Instruction::F32Ge),
            Opcode::F64Eq => Some(Instruction::F64Eq),
            Opcode::F64Ne => Some(Instruction::F64Ne),
            Opcode::F64Lt => Some(Instruction::F64Lt),
            Opcode::F64Gt => Some(Instruction::F64Gt),
            Opcode::F64Le => Some(Instruction::F64Le),
            Opcode::F64Ge => Some(Instruction::F64Ge),
            Opcode::I32Clz => Some(Instruction::I32Clz),
            Opcode::I32Ctz => Some(Instruction::I32Ctz),
            Opcode::I32Popcnt => Some(Instruction::I32Popcnt),
            Opcode::I32Add => Some(Instruction::I32Add),
            Opcode::I32Sub => Some(Instruction::I32Sub),
            Opcode::I32Mul => Some(Instruction::I32Mul),
            Opcode::I32DivS => Some(Instruction::I32DivS),
            Opcode::I32DivU => Some(Instruction::I32DivU),
            Opcode::I32RemS => Some(Instruction::I32RemS),
            Opcode::I32RemU => Some(Instruction::I32RemU),
            Opcode::I32And => Some(Instruction::I32And),
            Opcode::I32Or => Some(Instruction::I32Or),
            Opcode::I32Xor => Some(Instruction::I32Xor),
            Opcode::I32Shl => Some(Instruction::I32Shl),
            Opcode::I32ShrS => Some(Instruction::I32ShrS),
            Opcode::I32ShrU => Some(Instruction::I32ShrU),
            Opcode::I32Rotl => Some(Instruction::I32Rotl),
            Opcode::I32Rotr => Some(Instruction::I32Rotr),
            Opcode::I64Clz => Some(Instruction::I64Clz),
            Opcode::I64Ctz => Some(Instruction::I64Ctz),
            Opcode::I64Popcnt => Some(Instruction::I64Popcnt),
            Opcode::I64Add => Some(Instruction::I64Add),
            Opcode::I64Sub => Some(Instruction::I64Sub),
            Opcode::I64Mul => Some(Instruction::I64Mul),
            Opcode::I64DivS => Some(Instruction::I64DivS),
            Opcode::I64DivU => Some(Instruction::I64DivU),
            Opcode::I64RemS => Some(Instruction::I64RemS),
            Opcode::I64RemU => Some(Instruction::I64RemU),
            Opcode::I64And => Some(Instruction::I64And),
            Opcode::I64Or => Some(Instruction::I64Or),
            Opcode::I64Xor => Some(Instruction::I64Xor),
            Opcode::I64Shl => Some(Instruction::I64Shl),
            Opcode::I64ShrS => Some(Instruction::I64ShrS),
            Opcode::I64ShrU => Some(Instruction::I64ShrU),
            Opcode::I64Rotl => Some(Instruction::I64Rotl),
            Opcode::I64Rotr => Some(Instruction::I64Rotr),
            Opcode::F32Abs => Some(Instruction::F32Abs),
            Opcode::F32Neg => Some(Instruction::F32Neg),
            Opcode::F32Ceil => Some(Instruction::F32Ceil),
            Opcode::F32Floor => Some(Instruction::F32Floor),
            Opcode::F32Trunc => Some(Instruction::F32Trunc),
            Opcode::F32Nearest => Some(Instruction::F32Nearest),
            Opcode::F32Sqrt => Some(Instruction::F32Sqrt),
            Opcode::F32Add => Some(Instruction::F32Add),
            Opcode::F32Sub => Some(Instruction::F32Sub),
            Opcode::F32Mul => Some(Instruction::F32Mul),
            Opcode::F32Div => Some(Instruction::F32Div),
            Opcode::F32Min => Some(Instruction::F32Min),
            Opcode::F32Max => Some(Instruction::F32Max),
            Opcode::F32Copysign => Some(Instruction::F32Copysign),
            Opcode::F64Abs => Some(Instruction::F64Abs),
            Opcode::F64Neg => Some(Instruction::F64Neg),
            Opcode::F64Ceil => Some(Instruction::F64Ceil),
            Opcode::F64Floor => Some(Instruction::F64Floor),
            Opcode::F64Trunc => Some(Instruction::F64Trunc),
            Opcode::F64Nearest => Some(Instruction::F64Nearest),
            Opcode::F64Sqrt => Some(Instruction::F64Sqrt),
            Opcode::F64Add => Some(Instruction::F64Add),
            Opcode::F64Sub => Some(Instruction::F64Sub),
            Opcode::F64Mul => Some(Instruction::F64Mul),
            Opcode::F64Div => Some(Instruction::F64Div),
            Opcode::F64Min => Some(Instruction::F64Min),
            Opcode::F64Max => Some(Instruction::F64Max),
            Opcode::F64Copysign => Some(Instruction::F64Copysign),
            Opcode::I32WrapI64 => Some(Instruction::I32WrapI64),
            Opcode::I32TruncF32S => Some(Instruction::I32TruncF32S),
            Opcode::I32TruncF32U => Some(Instruction::I32TruncF32U),
            Opcode::I32TruncF64S => Some(Instruction::I32TruncF64S),
            Opcode::I32TruncF64U => Some(Instruction::I32TruncF64U),
            Opcode::I64ExtendI32S => Some(Instruction::I64ExtendI32S),
            Opcode::I64ExtendI32U => Some(Instruction::I64ExtendI32U),
            Opcode::I64TruncF32S => Some(Instruction::I64TruncF32S),
            Opcode::I64TruncF32U => Some(Instruction::I64TruncF32U),
            Opcode::I64TruncF64S => Some(Instruction::I64TruncF64S),
            Opcode::I64TruncF64U => Some(Instruction::I64TruncF64U),
            Opcode::F32ConvertI32S => Some(Instruction::F32ConvertI32S),
            Opcode::F32ConvertI32U => Some(Instruction::F32ConvertI32U),
            Opcode::F32ConvertI64S => Some(Instruction::F32ConvertI64S),
            Opcode::F32ConvertI64U => Some(Instruction::F32ConvertI64U),
            Opcode::F32DemoteF64 => Some(Instruction::F32DemoteF64),
            Opcode::F64ConvertI32S => Some(Instruction::F64ConvertI32S),
            Opcode::F64ConvertI32U => Some(Instruction::F64ConvertI32U),
            Opcode::F64ConvertI64S => Some(Instruction::F64ConvertI64S),
            Opcode::F64ConvertI64U => Some(Instruction::F64ConvertI64U),
            Opcode::F64PromoteF32 => Some(Instruction::F64PromoteF32),
            Opcode::I32ReinterpretF32 => Some(Instruction::I32ReinterpretF32),
            Opcode::I64ReinterpretF64 => Some(Instruction::I64ReinterpretF64),
            Opcode::F32ReinterpretI32 => Some(Instruction::F32ReinterpretI32),
            Opcode::F64ReinterpretI64 => Some(Instruction::F64ReinterpretI64),
            Opcode::I32Extend8S => Some(Instruction::I32Extend8S),
            Opcode::I32Extend16S => Some(Instruction::I32Extend16S),
            Opcode::I64Extend8S => Some(Instruction::I64Extend8S),
            Opcode::I64Extend16S => Some(Instruction::I64Extend16S),
            Opcode::I64Extend32S => Some(Instruction::I64Extend32S),
            Opcode::RefNull => Some(Instruction::RefNull),
            Opcode::RefIsNull => Some(Instruction::RefIsNull),
            Opcode::RefFunc => Some(Instruction::RefFunc),
            Opcode::Extension => Some(Instruction::Extension),
            _ => None,
        }
    }

    /// Builds the instruction that holds nothing besides the opcode `op`.
    pub fn plain(op: Opcode) -> (r: Option<Instruction>)
        ensures
            r == Self::plain_of(op),
    {
        match op {
            Opcode::Unreachable => Some(Instruction::Unreachable),
            Opcode::Nop => Some(Instruction::Nop),
            Opcode::Return => Some(Instruction::Return),
            Opcode::Drop => Some(Instruction::Drop),
            Opcode::Select => Some(Instruction::Select),
            Opcode::SelectValueType => Some(Instruction::SelectValueType),
            Opcode::MemorySize => Some(Instruction::MemorySize),
            Opcode::MemoryGrow => Some(Instruction::MemoryGrow),
            Opcode::I32Eqz => Some(Instruction::I32Eqz),
            Opcode::I32Eq => Some(Instruction::I32Eq),
            Opcode::I32Ne => Some(Instruction::I32Ne),
            Opcode::I32LtS => Some(Instruction::I32LtS),
            Opcode::I32LtU => Some(Instruction::I32LtU),
            Opcode::I32GtS => Some(Instruction::I32GtS),
            Opcode::I32GtU => Some(Instruction::I32GtU),
            Opcode::I32LeS => Some(Instruction::I32LeS),
            Opcode::I32LeU => Some(Instruction::I32LeU),
            Opcode::I32GeS => Some(Instruction::I32GeS),
            Opcode::I32GeU => Some(Instruction::I32GeU),
            Opcode::I64Eqz => Some(Instruction::I64Eqz),
            Opcode::I64Eq => Some(Instruction::I64Eq),
            Opcode::I64Ne => Some(Instruction::I64Ne),
            Opcode::I64LtS => Some(Instruction::I64LtS),
            Opcode::I64LtU => Some(Instruction::I64LtU),
            Opcode::I64GtS => Some(Instruction::I64GtS),
            Opcode::I64GtU => Some(Instruction::I64GtU),
            Opcode::I64LeS => Some(Instruction::I64LeS),
            Opcode::I64LeU => Some(Instruction::I64LeU),
            Opcode::I64GeS => Some(Instruction::I64GeS),
            Opcode::I64GeU => Some(Instruction::I64GeU),
            Opcode::F32Eq => Some(Instruction::F32Eq),
            Opcode::F32Ne => Some(Instruction::F32Ne),
            Opcode::F32Lt => Some(Instruction::F32Lt),
            Opcode::F32Gt => Some(Instruction::F32Gt),
            Opcode::F32Le => Some(Instruction::F32Le),
            Opcode::F32Ge => Some(Instruction::F32Ge),
            Opcode::F64Eq => Some(Instruction::F64Eq),
            Opcode::F64Ne => Some(Instruction::F64Ne),
            Opcode::F64Lt => Some(Instruction::F64Lt),
            Opcode::F64Gt => Some(Instruction::F64Gt),
            Opcode::F64Le => Some(Instruction::F64Le),
            Opcode::F64Ge => Some(Instruction::F64Ge),
            Opcode::I32Clz => Some(Instruction::I32Clz),
            Opcode::I32Ctz => Some(Instruction::I32Ctz),
            Opcode::I32Popcnt => Some(Instruction::I32Popcnt),
            Opcode::I32Add => Some(Instruction::I32Add),
            Opcode::I32Sub => Some(Instruction::I32Sub),
            Opcode::I32Mul => Some(Instruction::I32Mul),
            Opcode::I32DivS => Some(Instruction::I32DivS),
            Opcode::I32DivU => Some(Instruction::I32DivU),
            Opcode::I32RemS => Some(Instruction::I32RemS),
            Opcode::I32RemU => Some(Instruction::I32RemU),
            Opcode::I32And => Some(Instruction::I32And),
            Opcode::I32Or => Some(Instruction::I32Or),
            Opcode::I32Xor => Some(Instruction::I32Xor),
            Opcode::I32Shl => Some(Instruction::I32Shl),
            Opcode::I32ShrS => Some(Instruction::I32ShrS),
            Opcode::I32ShrU => Some(Instruction::I32ShrU),
            Opcode::I32Rotl => Some(Instruction::I32Rotl),
            Opcode::I32Rotr => Some(Instruction::I32Rotr),
            Opcode::I64Clz => Some(Instruction::I64Clz),
            Opcode::I64Ctz => Some(Instruction::I64Ctz),
            Opcode::I64Popcnt => Some(Instruction::I64Popcnt),
            Opcode::I64Add => Some(Instruction::I64Add),
            Opcode::I64Sub => Some(Instruction::I64Sub),
            Opcode::I64Mul => Some(Instruction::I64Mul),
            Opcode::I64DivS => Some(Instruction::I64DivS),
            Opcode::I64DivU => Some(Instruction::I64DivU),
            Opcode::I64RemS => Some(Instruction::I64RemS),
            Opcode::I64RemU => Some(Instruction::I64RemU),
            Opcode::I64And => Some(Instruction::I64And),
            Opcode::I64Or => Some(Instruction::I64Or),
            Opcode::I64Xor => Some(Instruction::I64Xor),
            Opcode::I64Shl => Some(Instruction::I64Shl),
            Opcode::I64ShrS => Some(Instruction::I64ShrS),
            Opcode::I64ShrU => Some(Instruction::I64ShrU),
            Opcode::I64Rotl => Some(Instruction::I64Rotl),
            Opcode::I64Rotr => Some(Instruction::I64Rotr),
            Opcode::F32Abs => Some(Instruction::F32Abs),
            Opcode::F32Neg => Some(Instruction::F32Neg),
            Opcode::F32Ceil => Some(Instruction::F32Ceil),
            Opcode::F32Floor => Some(Instruction::F32Floor),
            Opcode::F32Trunc => Some(Instruction::F32Trunc),
            Opcode::F32Nearest => Some(Instruction::F32Nearest),
            Opcode::F32Sqrt => Some(Instruction::F32Sqrt),
            Opcode::F32Add => Some(Instruction::F32Add),
            Opcode::F32Sub => Some(Instruction::F32Sub),
            Opcode::F32Mul => Some(Instruction::F32Mul),
            Opcode::F32Div => Some(Instruction::F32Div),
            Opcode::F32Min => Some(Instruction::F32Min),
            Opcode::F32Max => Some(Instruction::F32Max),
            Opcode::F32Copysign => Some(Instruction::F32Copysign),
            Opcode::F64Abs => Some(Instruction::F64Abs),
            Opcode::F64Neg => Some(Instruction::F64Neg),
            Opcode::F64Ceil => Some(Instruction::F64Ceil),
            Opcode::F64Floor => Some(Instruction::F64Floor),
            Opcode::F64Trunc => Some(Instruction::F64Trunc),
            Opcode::F64Nearest => Some(Instruction::F64Nearest),
            Opcode::F64Sqrt => Some(Instruction::F64Sqrt),
            Opcode::F64Add => Some(Instruction::F64Add),
            Opcode::F64Sub => Some(Instruction::F64Sub),
            Opcode::F64Mul => Some(Instruction::F64Mul),
            Opcode::F64Div => Some(Instruction::F64Div),
            Opcode::F64Min => Some(Instruction::F64Min),
            Opcode::F64Max => Some(Instruction::F64Max),
            Opcode::F64Copysign => Some(Instruction::F64Copysign),
            Opcode::I32WrapI64 => Some(Instruction::I32WrapI64),
            Opcode::I32TruncF32S => Some(Instruction::I32TruncF32S),
            Opcode::I32TruncF32U => Some(Instruction::I32TruncF32U),
            Opcode::I32TruncF64S => Some(Instruction::I32TruncF64S),
            Opcode::I32TruncF64U => Some(Instruction::I32TruncF64U),
            Opcode::I64ExtendI32S => Some(Instruction::I64ExtendI32S),
            Opcode::I64ExtendI32U => Some(Instruction::I64ExtendI32U),
            Opcode::I64TruncF32S => Some(Instruction::I64TruncF32S),
            Opcode::I64TruncF32U => Some(Instruction::I64TruncF32U),
            Opcode::I64TruncF64S => Some(Instruction::I64TruncF64S),
            Opcode::I64TruncF64U => Some(Instruction::I64TruncF64U),
            Opcode::F32ConvertI32S => Some(Instruction::F32ConvertI32S),
            Opcode::F32ConvertI32U => Some(Instruction::F32ConvertI32U),
            Opcode::F32ConvertI64S => Some(Instruction::F32ConvertI64S),
            Opcode::F32ConvertI64U => Some(Instruction::F32ConvertI64U),
            Opcode::F32DemoteF64 => Some(Instruction::F32DemoteF64),
            Opcode::F64ConvertI32S => Some(Instruction::F64ConvertI32S),
            Opcode::F64ConvertI32U => Some(Instruction::F64ConvertI32U),
            Opcode::F64ConvertI64S => Some(Instruction::F64ConvertI64S),
            Opcode::F64ConvertI64U => Some(Instruction::F64ConvertI64U),
            Opcode::F64PromoteF32 => Some(Instruction::F64PromoteF32),
            Opcode::I32ReinterpretF32 => Some(Instruction::I32ReinterpretF32),
            Opcode::I64ReinterpretF64 => Some(Instruction::I64ReinterpretF64),
            Opcode::F32ReinterpretI32 => Some(Instruction::F32ReinterpretI32),
            Opcode::F64ReinterpretI64 => Some(Instruction::F64ReinterpretI64),
            Opcode::I32Extend8S => Some(Instruction::I32Extend8S),
            Opcode::I32Extend16S => Some(Instruction::I32Extend16S),
            Opcode::I64Extend8S => Some(Instruction::I64Extend8S),
            Opcode::I64Extend16S => Some(Instruction::I64Extend16S),
            Opcode::I64Extend32S => Some(Instruction::I64Extend32S),
            Opcode::RefNull => Some(Instruction::RefNull),
            Opcode::RefIsNull => Some(Instruction::RefIsNull),
            Opcode::RefFunc => Some(Instruction::RefFunc),
            Opcode::Extension => Some(Instruction::Extension),
            _ => None,
        }
    }

    /// `plain_of` gives the one instruction with the opcode that holds nothing
    /// else, and gives none exactly for the opcodes whose immediates the
    /// catalog keeps and for those that end a list.
    pub proof fn lemma_plain_of(op: Opcode)
        ensures
            Self::plain_of(op) matches Some(i) ==> i.opcode() == op && i.is_plain(),
            Self::plain_of(op) is Some <==> (op.immediates() is Plain || op.immediates() is Byte
                || op.immediates() is SkippedIndex || op.immediates() is SkippedTypes
                || op.immediates() is Unsupported),
    {
    }

    /// The instruction with one index that `op` encodes: a call, or an access
    /// to a local, a global or a table.  For another opcode, `Nop`.
    pub open spec fn indexed(op: Opcode, index: usize) -> Instruction {
        match op {
            Opcode::Call => Instruction::Call { function_index: index },
            Opcode::LocalGet => Instruction::LocalGet(index),
            Opcode::LocalSet => Instruction::LocalSet(index),
            Opcode::LocalTee => Instruction::LocalTee(index),
            Opcode::GlobalGet => Instruction::GlobalGet(index),
            Opcode::GlobalSet => Instruction::GlobalSet(index),
            Opcode::TableGet => Instruction::TableGet(index),
            Opcode::TableSet => Instruction::TableSet(index),
            _ => Instruction::Nop,
        }
    }

    /// Builds the instruction with one index that `op` encodes.
    pub fn with_index(op: Opcode, index: usize) -> (r: Instruction)
        ensures
            r == Self::indexed(op, index),
            op.immediates() is Index ==> r.opcode() == op,
    {
        match op {
            Opcode::Call => Instruction::Call { function_index: index },
            Opcode::LocalGet => Instruction::LocalGet(index),
            Opcode::LocalSet => Instruction::LocalSet(index),
            Opcode::LocalTee => Instruction::LocalTee(index),
            Opcode::GlobalGet => Instruction::GlobalGet(index),
            Opcode::GlobalSet => Instruction::GlobalSet(index),
            Opcode::TableGet => Instruction::TableGet(index),
            Opcode::TableSet => Instruction::TableSet(index),
            _ => Instruction::Nop,
        }
    }

    /// The memory instruction that `op` encodes, with its immediate.  For
    /// another opcode, `Nop`.
    pub open spec fn memory_access(op: Opcode, memarg: MemArg) -> Instruction {
        match op {
            Opcode::I32Load => Instruction::I32Load(memarg),
            Opcode::I64Load => Instruction::I64Load(memarg),
            Opcode::F32Load => Instruction::F32Load(memarg),
            Opcode::F64Load => Instruction::F64Load(memarg),
            Opcode::I32Load8s => Instruction::I32Load8s(memarg),
            Opcode::I32Load8u => Instruction::I32Load8u(memarg),
            Opcode::I32Load16s => Instruction::I32Load16s(memarg),
            Opcode::I32Load16u => Instruction::I32Load16u(memarg),
            Opcode::I64Load8s => Instruction::I64Load8s(memarg),
            Opcode::I64Load8u => Instruction::I64Load8u(memarg),
            Opcode::I64Load16s => Instruction::I64Load16s(memarg),
            Opcode::I64Load16u => Instruction::I64Load16u(memarg),
            Opcode::I64Load32s => Instruction::I64Load32s(memarg),
            Opcode::I64Load32u => Instruction::I64Load32u(memarg),
            Opcode::I32Store => Instruction::I32Store(memarg),
            Opcode::I64Store => Instruction::I64Store(memarg),
            Opcode::F32Store => Instruction::F32Store(memarg),
            Opcode::F64Store => Instruction::F64Store(memarg),
            Opcode::I32Store8 => Instruction::I32Store8(memarg),
            Opcode::I32Store16 => Instruction::I32Store16(memarg),
            Opcode::I64Store8 => Instruction::I64Store8(memarg),
            Opcode::I64Store16 => Instruction::I64Store16(memarg),
            Opcode::I64Store32 => Instruction::I64Store32(memarg),
            _ => Instruction::Nop,
        }
    }

    /// Builds the memory instruction that `op` encodes.
    pub fn with_memarg(op: Opcode, memarg: MemArg) -> (r: Instruction)
        ensures
            r == Self::memory_access(op, memarg),
            op.immediates() is MemArg ==> r.opcode() == op,
    {
        match op {
            Opcode::I32Load => Instruction::I32Load(memarg),
            Opcode::I64Load => Instruction::I64Load(memarg),
            Opcode::F32Load => Instruction::F32Load(memarg),
            Opcode::F64Load => Instruction::F64Load(memarg),
            Opcode::I32Load8s => Instruction::I32Load8s(memarg),
            Opcode::I32Load8u => Instruction::I32Load8u(memarg),
            Opcode::I32Load16s => Instruction::I32Load16s(memarg),
            Opcode::I32Load16u => Instruction::I32Load16u(memarg),
            Opcode::I64Load8s => Instruction::I64Load8s(memarg),
            Opcode::I64Load8u => Instruction::I64Load8u(memarg),
            Opcode::I64Load16s => Instruction::I64Load16s(memarg),
            Opcode::I64Load16u => Instruction::I64Load16u(memarg),
            Opcode::I64Load32s => Instruction::I64Load32s(memarg),
            Opcode::I64Load32u => Instruction::I64Load32u(memarg),
            Opcode::I32Store => Instruction::I32Store(memarg),
            Opcode::I64Store => Instruction::I64Store(memarg),
            Opcode::F32Store => Instruction::F32Store(memarg),
            Opcode::F64Store => Instruction::F64Store(memarg),
            Opcode::I32Store8 => Instruction::I32Store8(memarg),
            Opcode::I32Store16 => Instruction::I32Store16(memarg),
            Opcode::I64Store8 => Instruction::I64Store8(memarg),
            Opcode::I64Store16 => Instruction::I64Store16(memarg),
            Opcode::I64Store32 => Instruction::I64Store32(memarg),
            _ => Instruction::Nop,
        }
    }
}

/// The mathematical model of an instruction.  The variants that hold
/// lists hold them as sequences; every other instruction is its own model.
pub enum InstructionView {
    Block { block_type: u8, body: Seq<InstructionView> },
    Loop { block_type: u8, body: Seq<InstructionView> },
    If { block_type: u8, then_body: Seq<InstructionView>, else_body: Seq<InstructionView> },
    BrTable { label_indexes: Seq<u8> },
    Simple(Instruction),
}

/// The model of one instruction.
pub open spec fn instruction_model(i: Instruction) -> InstructionView
    decreases i,
{
    match i {
        Instruction::Block { block_type, body } => InstructionView::Block {
            block_type,
            body: code_model(body@),
        },
        Instruction::Loop { block_type, body } => InstructionView::Loop {
            block_type,
            body: code_model(body@),
        },
        Instruction::If { block_type, then_body, else_body } => InstructionView::If {
            block_type,
            then_body: code_model(then_body@),
            else_body: code_model(else_body@),
        },
        Instruction::BrTable { label_indexes } => InstructionView::BrTable {
            label_indexes: label_indexes@,
        },
        other => InstructionView::Simple(other),
    }
}

/// The model of an instruction list: the models of its members, in order.
pub open spec fn code_model(code: Seq<Instruction>) -> Seq<InstructionView>
    decreases code,
{
    Seq::new(
        code.len(),
        |k: int|
            if 0 <= k < code.len() {
                instruction_model(code[k])
            } else {
                InstructionView::Simple(Instruction::Nop)
            },
    )
}

impl DeepView for Instruction {
    type V = InstructionView;

    open spec fn deep_view(&self) -> InstructionView {
        instruction_model(*self)
    }
}

/// An instruction that holds nothing besides its opcode is its own model.
pub proof fn lemma_plain_model(op: Opcode)
    ensures
        Instruction::plain_of(op) matches Some(i) ==> instruction_model(i)
            == InstructionView::Simple(i),
{
}

/// An instruction with one index is its own model.
pub proof fn lemma_indexed_model(op: Opcode, index: usize)
    ensures
        instruction_model(Instruction::indexed(op, index)) == InstructionView::Simple(
            Instruction::indexed(op, index),
        ),
{
}

/// A memory instruction is its own model.
pub proof fn lemma_memory_access_model(op: Opcode, memarg: MemArg)
    ensures
        instruction_model(Instruction::memory_access(op, memarg)) == InstructionView::Simple(
            Instruction::memory_access(op, memarg),
        ),
{
}

/// Appending an instruction appends its model.
pub proof fn lemma_code_model_push(code: Seq<Instruction>, i: Instruction)
    ensures
        code_model(code.push(i)) == code_model(code).push(instruction_model(i)),
{
    assert(code_model(code.push(i)) =~= code_model(code).push(instruction_model(i)));
}

} // verus!
