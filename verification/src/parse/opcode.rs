//! The opcode table of the instruction stream.

use vstd::prelude::*;

verus! {

/// The first byte of an encoded instruction.
#[derive(Clone, Copy, Debug, PartialEq, Eq, Structural)]
pub enum Opcode {
    Unreachable,
    Nop,
    Block,
    Loop,
    If,
    Else,
    End,
    Br,
    BrIf,
    BrTable,
    Return,
    Call,
    CallIndirect,
    Drop,
    Select,
    SelectValueType,
    LocalGet,
    LocalSet,
    LocalTee,
    GlobalGet,
    GlobalSet,
    TableGet,
    TableSet,
    I32Load,
    I64Load,
    F32Load,
    F64Load,
    I32Load8s,
    I32Load8u,
    I32Load16s,
    I32Load16u,
    I64Load8s,
    I64Load8u,
    I64Load16s,
    I64Load16u,
    I64Load32s,
    I64Load32u,
    I32Store,
    I64Store,
    F32Store,
    F64Store,
    I32Store8,
    I32Store16,
    I64Store8,
    I64Store16,
    I64Store32,
    MemorySize,
    MemoryGrow,
    I32Const,
    I64Const,
    F32Const,
    F64Const,
    I32Eqz,
    I32Eq,
    I32Ne,
    I32LtS,
    I32LtU,
    I32GtS,
    I32GtU,
    I32LeS,
    I32LeU,
    I32GeS,
    I32GeU,
    I64Eqz,
    I64Eq,
    I64Ne,
    I64LtS,
    I64LtU,
    I64GtS,
    I64GtU,
    I64LeS,
    I64LeU,
    I64GeS,
    I64GeU,
    F32Eq,
    F32Ne,
    F32Lt,
    F32Gt,
    F32Le,
    F32Ge,
    F64Eq,
    F64Ne,
    F64Lt,
    F64Gt,
    F64Le,
    F64Ge,
    I32Clz,
    I32Ctz,
    I32Popcnt,
    I32Add,
    I32Sub,
    I32Mul,
    I32DivS,
    I32DivU,
    I32RemS,
    I32RemU,
    I32And,
    I32Or,
    I32Xor,
    I32Shl,
    I32ShrS,
    I32ShrU,
    I32Rotl,
    I32Rotr,
    I64Clz,
    I64Ctz,
    I64Popcnt,
    I64Add,
    I64Sub,
    I64Mul,
    I64DivS,
    I64DivU,
    I64RemS,
    I64RemU,
    I64And,
    I64Or,
    I64Xor,
    I64Shl,
    I64ShrS,
    I64ShrU,
    I64Rotl,
    I64Rotr,
    F32Abs,
    F32Neg,
    F32Ceil,
    F32Floor,
    F32Trunc,
    F32Nearest,
    F32Sqrt,
    F32Add,
    F32Sub,
    F32Mul,
    F32Div,
    F32Min,
    F32Max,
    F32Copysign,
    F64Abs,
    F64Neg,
    F64Ceil,
    F64Floor,
    F64Trunc,
    F64Nearest,
    F64Sqrt,
    F64Add,
    F64Sub,
    F64Mul,
    F64Div,
    F64Min,
    F64Max,
    F64Copysign,
    I32WrapI64,
    I32TruncF32S,
    I32TruncF32U,
    I32TruncF64S,
    I32TruncF64U,
    I64ExtendI32S,
    I64ExtendI32U,
    I64TruncF32S,
    I64TruncF32U,
    I64TruncF64S,
    I64TruncF64U,
    F32ConvertI32S,
    F32ConvertI32U,
    F32ConvertI64S,
    F32ConvertI64U,
    F32DemoteF64,
    F64ConvertI32S,
    F64ConvertI32U,
    F64ConvertI64S,
    F64ConvertI64U,
    F64PromoteF32,
    I32ReinterpretF32,
    I64ReinterpretF64,
    F32ReinterpretI32,
    F64ReinterpretI64,
    I32Extend8S,
    I32Extend16S,
    I64Extend8S,
    I64Extend16S,
    I64Extend32S,
    RefNull,
    RefIsNull,
    RefFunc,
    Extension,
}

impl Opcode {
    /// The byte that encodes this opcode.
    pub open spec fn byte(self) -> u8 {
        match self {
            Opcode::Unreachable => 0x00,
            Opcode::Nop => 0x01,
            Opcode::Block => 0x02,
            Opcode::Loop => 0x03,
            Opcode::If => 0x04,
            Opcode::Else => 0x05,
            Opcode::End => 0x0B,
            Opcode::Br => 0x0C,
            Opcode::BrIf => 0x0D,
            Opcode::BrTable => 0x0E,
            Opcode::Return => 0x0F,
            Opcode::Call => 0x10,
            Opcode::CallIndirect => 0x11,
            Opcode::Drop => 0x1A,
            Opcode::Select => 0x1B,
            Opcode::SelectValueType => 0x1C,
            Opcode::LocalGet => 0x20,
            Opcode::LocalSet => 0x21,
            Opcode::LocalTee => 0x22,
            Opcode::GlobalGet => 0x23,
            Opcode::GlobalSet => 0x24,
            Opcode::TableGet => 0x25,
            Opcode::TableSet => 0x26,
            Opcode::I32Load => 0x28,
            Opcode::I64Load => 0x29,
            Opcode::F32Load => 0x2A,
            Opcode::F64Load => 0x2B,
            Opcode::I32Load8s => 0x2C,
            Opcode::I32Load8u => 0x2D,
            Opcode::I32Load16s => 0x2E,
            Opcode::I32Load16u => 0x2F,
            Opcode::I64Load8s => 0x30,
            Opcode::I64Load8u => 0x31,
            Opcode::I64Load16s => 0x32,
            Opcode::I64Load16u => 0x33,
            Opcode::I64Load32s => 0x34,
            Opcode::I64Load32u => 0x35,
            Opcode::I32Store => 0x36,
            Opcode::I64Store => 0x37,
            Opcode::F32Store => 0x38,
            Opcode::F64Store => 0x39,
            Opcode::I32Store8 => 0x3A,
            Opcode::I32Store16 => 0x3B,
            Opcode::I64Store8 => 0x3C,
            Opcode::I64Store16 => 0x3D,
            Opcode::I64Store32 => 0x3E,
            Opcode::MemorySize => 0x3F,
            Opcode::MemoryGrow => 0x40,
            Opcode::I32Const => 0x41,
            Opcode::I64Const => 0x42,
            Opcode::F32Const => 0x43,
            Opcode::F64Const => 0x44,
            Opcode::I32Eqz => 0x45,
            Opcode::I32Eq => 0x46,
            Opcode::I32Ne => 0x47,
            Opcode::I32LtS => 0x48,
            Opcode::I32LtU => 0x49,
            Opcode::I32GtS => 0x4A,
            Opcode::I32GtU => 0x4B,
            Opcode::I32LeS => 0x4C,
            Opcode::I32LeU => 0x4D,
            Opcode::I32GeS => 0x4E,
            Opcode::I32GeU => 0x4F,
            Opcode::I64Eqz => 0x50,
            Opcode::I64Eq => 0x51,
            Opcode::I64Ne => 0x52,
            Opcode::I64LtS => 0x53,
            Opcode::I64LtU => 0x54,
            Opcode::I64GtS => 0x55,
            Opcode::I64GtU => 0x56,
            Opcode::I64LeS => 0x57,
            Opcode::I64LeU => 0x58,
            Opcode::I64GeS => 0x59,
            Opcode::I64GeU => 0x5A,
            Opcode::F32Eq => 0x5B,
            Opcode::F32Ne => 0x5C,
            Opcode::F32Lt => 0x5D,
            Opcode::F32Gt => 0x5E,
            Opcode::F32Le => 0x5F,
            Opcode::F32Ge => 0x60,
            Opcode::F64Eq => 0x61,
            Opcode::F64Ne => 0x62,
            Opcode::F64Lt => 0x63,
            Opcode::F64Gt => 0x64,
            Opcode::F64Le => 0x65,
            Opcode::F64Ge => 0x66,
            Opcode::I32Clz => 0x67,
            Opcode::I32Ctz => 0x68,
            Opcode::I32Popcnt => 0x69,
            Opcode::I32Add => 0x6A,
            Opcode::I32Sub => 0x6B,
            Opcode::I32Mul => 0x6C,
            Opcode::I32DivS => 0x6D,
            Opcode::I32DivU => 0x6E,
            Opcode::I32RemS => 0x6F,
            Opcode::I32RemU => 0x70,
            Opcode::I32And => 0x71,
            Opcode::I32Or => 0x72,
            Opcode::I32Xor => 0x73,
            Opcode::I32Shl => 0x74,
            Opcode::I32ShrS => 0x75,
            Opcode::I32ShrU => 0x76,
            Opcode::I32Rotl => 0x77,
            Opcode::I32Rotr => 0x78,
            Opcode::I64Clz => 0x79,
            Opcode::I64Ctz => 0x7A,
            Opcode::I64Popcnt => 0x7B,
            Opcode::I64Add => 0x7C,
            Opcode::I64Sub => 0x7D,
            Opcode::I64Mul => 0x7E,
            Opcode::I64DivS => 0x7F,
            Opcode::I64DivU => 0x80,
            Opcode::I64RemS => 0x81,
            Opcode::I64RemU => 0x82,
            Opcode::I64And => 0x83,
            Opcode::I64Or => 0x84,
            Opcode::I64Xor => 0x85,
            Opcode::I64Shl => 0x86,
            Opcode::I64ShrS => 0x87,
            Opcode::I64ShrU => 0x88,
            Opcode::I64Rotl => 0x89,
            Opcode::I64Rotr => 0x8A,
            Opcode::F32Abs => 0x8B,
            Opcode::F32Neg => 0x8C,
            Opcode::F32Ceil => 0x8D,
            Opcode::F32Floor => 0x8E,
            Opcode::F32Trunc => 0x8F,
            Opcode::F32Nearest => 0x90,
            Opcode::F32Sqrt => 0x91,
            Opcode::F32Add => 0x92,
            Opcode::F32Sub => 0x93,
            Opcode::F32Mul => 0x94,
            Opcode::F32Div => 0x95,
            Opcode::F32Min => 0x96,
            Opcode::F32Max => 0x97,
            Opcode::F32Copysign => 0x98,
            Opcode::F64Abs => 0x99,
            Opcode::F64Neg => 0x9A,
            Opcode::F64Ceil => 0x9B,
            Opcode::F64Floor => 0x9C,
            Opcode::F64Trunc => 0x9D,
            Opcode::F64Nearest => 0x9E,
            Opcode::F64Sqrt => 0x9F,
            Opcode::F64Add => 0xA0,
            Opcode::F64Sub => 0xA1,
            Opcode::F64Mul => 0xA2,
            Opcode::F64Div => 0xA3,
            Opcode::F64Min => 0xA4,
            Opcode::F64Max => 0xA5,
            Opcode::F64Copysign => 0xA6,
            Opcode::I32WrapI64 => 0xA7,
            Opcode::I32TruncF32S => 0xA8,
            Opcode::I32TruncF32U => 0xA9,
            Opcode::I32TruncF64S => 0xAA,
            Opcode::I32TruncF64U => 0xAB,
            Opcode::I64ExtendI32S => 0xAC,
            Opcode::I64ExtendI32U => 0xAD,
            Opcode::I64TruncF32S => 0xAE,
            Opcode::I64TruncF32U => 0xAF,
            Opcode::I64TruncF64S => 0xB0,
            Opcode::I64TruncF64U => 0xB1,
            Opcode::F32ConvertI32S => 0xB2,
            Opcode::F32ConvertI32U => 0xB3,
            Opcode::F32ConvertI64S => 0xB4,
            Opcode::F32ConvertI64U => 0xB5,
            Opcode::F32DemoteF64 => 0xB6,
            Opcode::F64ConvertI32S => 0xB7,
            Opcode::F64ConvertI32U => 0xB8,
            Opcode::F64ConvertI64S => 0xB9,
            Opcode::F64ConvertI64U => 0xBA,
            Opcode::F64PromoteF32 => 0xBB,
            Opcode::I32ReinterpretF32 => 0xBC,
            Opcode::I64ReinterpretF64 => 0xBD,
            Opcode::F32ReinterpretI32 => 0xBE,
            Opcode::F64ReinterpretI64 => 0xBF,
            Opcode::I32Extend8S => 0xC0,
            Opcode::I32Extend16S => 0xC1,
            Opcode::I64Extend8S => 0xC2,
            Opcode::I64Extend16S => 0xC3,
            Opcode::I64Extend32S => 0xC4,
            Opcode::RefNull => 0xD0,
            Opcode::RefIsNull => 0xD1,
            Opcode::RefFunc => 0xD2,
            Opcode::Extension => 0xFC,
        }
    }

    /// The opcode that `b` encodes, if any: the one whose `byte` is `b`.
    pub open spec fn decode(b: u8) -> Option<Opcode> {
        if exists|x: Opcode| x.byte() == b {
            Some(choose|x: Opcode| x.byte() == b)
        } else {
            None
        }
    }

    /// Encodes this opcode.
    pub fn to_byte(&self) -> (b: u8)
        ensures
            b == self.byte(),
    {
        match self {
            Opcode::Unreachable => 0x00,
            Opcode::Nop => 0x01,
            Opcode::Block => 0x02,
            Opcode::Loop => 0x03,
            Opcode::If => 0x04,
            Opcode::Else => 0x05,
            Opcode::End => 0x0B,
            Opcode::Br => 0x0C,
            Opcode::BrIf => 0x0D,
            Opcode::BrTable => 0x0E,
            Opcode::Return => 0x0F,
            Opcode::Call => 0x10,
            Opcode::CallIndirect => 0x11,
            Opcode::Drop => 0x1A,
            Opcode::Select => 0x1B,
            Opcode::SelectValueType => 0x1C,
            Opcode::LocalGet => 0x20,
            Opcode::LocalSet => 0x21,
            Opcode::LocalTee => 0x22,
            Opcode::GlobalGet => 0x23,
            Opcode::GlobalSet => 0x24,
            Opcode::TableGet => 0x25,
            Opcode::TableSet => 0x26,
            Opcode::I32Load => 0x28,
            Opcode::I64Load => 0x29,
            Opcode::F32Load => 0x2A,
            Opcode::F64Load => 0x2B,
            Opcode::I32Load8s => 0x2C,
            Opcode::I32Load8u => 0x2D,
            Opcode::I32Load16s => 0x2E,
            Opcode::I32Load16u => 0x2F,
            Opcode::I64Load8s => 0x30,
            Opcode::I64Load8u => 0x31,
            Opcode::I64Load16s => 0x32,
            Opcode::I64Load16u => 0x33,
            Opcode::I64Load32s => 0x34,
            Opcode::I64Load32u => 0x35,
            Opcode::I32Store => 0x36,
            Opcode::I64Store => 0x37,
            Opcode::F32Store => 0x38,
            Opcode::F64Store => 0x39,
            Opcode::I32Store8 => 0x3A,
            Opcode::I32Store16 => 0x3B,
            Opcode::I64Store8 => 0x3C,
            Opcode::I64Store16 => 0x3D,
            Opcode::I64Store32 => 0x3E,
            Opcode::MemorySize => 0x3F,
            Opcode::MemoryGrow => 0x40,
            Opcode::I32Const => 0x41,
            Opcode::I64Const => 0x42,
            Opcode::F32Const => 0x43,
            Opcode::F64Const => 0x44,
            Opcode::I32Eqz => 0x45,
            Opcode::I32Eq => 0x46,
            Opcode::I32Ne => 0x47,
            Opcode::I32LtS => 0x48,
            Opcode::I32LtU => 0x49,
            Opcode::I32GtS => 0x4A,
            Opcode::I32GtU => 0x4B,
            Opcode::I32LeS => 0x4C,
            Opcode::I32LeU => 0x4D,
            Opcode::I32GeS => 0x4E,
            Opcode::I32GeU => 0x4F,
            Opcode::I64Eqz => 0x50,
            Opcode::I64Eq => 0x51,
            Opcode::I64Ne => 0x52,
            Opcode::I64LtS => 0x53,
            Opcode::I64LtU => 0x54,
            Opcode::I64GtS => 0x55,
            Opcode::I64GtU => 0x56,
            Opcode::I64LeS => 0x57,
            Opcode::I64LeU => 0x58,
            Opcode::I64GeS => 0x59,
            Opcode::I64GeU => 0x5A,
            Opcode::F32Eq => 0x5B,
            Opcode::F32Ne => 0x5C,
            Opcode::F32Lt => 0x5D,
            Opcode::F32Gt => 0x5E,
            Opcode::F32Le => 0x5F,
            Opcode::F32Ge => 0x60,
            Opcode::F64Eq => 0x61,
            Opcode::F64Ne => 0x62,
            Opcode::F64Lt => 0x63,
            Opcode::F64Gt => 0x64,
            Opcode::F64Le => 0x65,
            Opcode::F64Ge => 0x66,
            Opcode::I32Clz => 0x67,
            Opcode::I32Ctz => 0x68,
            Opcode::I32Popcnt => 0x69,
            Opcode::I32Add => 0x6A,
            Opcode::I32Sub => 0x6B,
            Opcode::I32Mul => 0x6C,
            Opcode::I32DivS => 0x6D,
            Opcode::I32DivU => 0x6E,
            Opcode::I32RemS => 0x6F,
            Opcode::I32RemU => 0x70,
            Opcode::I32And => 0x71,
            Opcode::I32Or => 0x72,
            Opcode::I32Xor => 0x73,
            Opcode::I32Shl => 0x74,
            Opcode::I32ShrS => 0x75,
            Opcode::I32ShrU => 0x76,
            Opcode::I32Rotl => 0x77,
            Opcode::I32Rotr => 0x78,
            Opcode::I64Clz => 0x79,
            Opcode::I64Ctz => 0x7A,
            Opcode::I64Popcnt => 0x7B,
            Opcode::I64Add => 0x7C,
            Opcode::I64Sub => 0x7D,
            Opcode::I64Mul => 0x7E,
            Opcode::I64DivS => 0x7F,
            Opcode::I64DivU => 0x80,
            Opcode::I64RemS => 0x81,
            Opcode::I64RemU => 0x82,
            Opcode::I64And => 0x83,
            Opcode::I64Or => 0x84,
            Opcode::I64Xor => 0x85,
            Opcode::I64Shl => 0x86,
            Opcode::I64ShrS => 0x87,
            Opcode::I64ShrU => 0x88,
            Opcode::I64Rotl => 0x89,
            Opcode::I64Rotr => 0x8A,
            Opcode::F32Abs => 0x8B,
            Opcode::F32Neg => 0x8C,
            Opcode::F32Ceil => 0x8D,
            Opcode::F32Floor => 0x8E,
            Opcode::F32Trunc => 0x8F,
            Opcode::F32Nearest => 0x90,
            Opcode::F32Sqrt => 0x91,
            Opcode::F32Add => 0x92,
            Opcode::F32Sub => 0x93,
            Opcode::F32Mul => 0x94,
            Opcode::F32Div => 0x95,
            Opcode::F32Min => 0x96,
            Opcode::F32Max => 0x97,
            Opcode::F32Copysign => 0x98,
            Opcode::F64Abs => 0x99,
            Opcode::F64Neg => 0x9A,
            Opcode::F64Ceil => 0x9B,
            Opcode::F64Floor => 0x9C,
            Opcode::F64Trunc => 0x9D,
            Opcode::F64Nearest => 0x9E,
            Opcode::F64Sqrt => 0x9F,
            Opcode::F64Add => 0xA0,
            Opcode::F64Sub => 0xA1,
            Opcode::F64Mul => 0xA2,
            Opcode::F64Div => 0xA3,
            Opcode::F64Min => 0xA4,
            Opcode::F64Max => 0xA5,
            Opcode::F64Copysign => 0xA6,
            Opcode::I32WrapI64 => 0xA7,
            Opcode::I32TruncF32S => 0xA8,
            Opcode::I32TruncF32U => 0xA9,
            Opcode::I32TruncF64S => 0xAA,
            Opcode::I32TruncF64U => 0xAB,
            Opcode::I64ExtendI32S => 0xAC,
            Opcode::I64ExtendI32U => 0xAD,
            Opcode::I64TruncF32S => 0xAE,
            Opcode::I64TruncF32U => 0xAF,
            Opcode::I64TruncF64S => 0xB0,
            Opcode::I64TruncF64U => 0xB1,
            Opcode::F32ConvertI32S => 0xB2,
            Opcode::F32ConvertI32U => 0xB3,
            Opcode::F32ConvertI64S => 0xB4,
            Opcode::F32ConvertI64U => 0xB5,
            Opcode::F32DemoteF64 => 0xB6,
            Opcode::F64ConvertI32S => 0xB7,
            Opcode::F64ConvertI32U => 0xB8,
            Opcode::F64ConvertI64S => 0xB9,
            Opcode::F64ConvertI64U => 0xBA,
            Opcode::F64PromoteF32 => 0xBB,
            Opcode::I32ReinterpretF32 => 0xBC,
            Opcode::I64ReinterpretF64 => 0xBD,
            Opcode::F32ReinterpretI32 => 0xBE,
            Opcode::F64ReinterpretI64 => 0xBF,
            Opcode::I32Extend8S => 0xC0,
            Opcode::I32Extend16S => 0xC1,
            Opcode::I64Extend8S => 0xC2,
            Opcode::I64Extend16S => 0xC3,
            Opcode::I64Extend32S => 0xC4,
            Opcode::RefNull => 0xD0,
            Opcode::RefIsNull => 0xD1,
            Opcode::RefFunc => 0xD2,
            Opcode::Extension => 0xFC,
        }
    }

    /// Decodes a opcode; `None` for a byte that encodes none.
    pub fn from_byte(b: u8) -> (r: Option<Opcode>)
        ensures
            r == Self::decode(b),
            r matches Some(x) ==> x.byte() == b,
            r is None ==> forall|x: Opcode| x.byte() != b,
    {
        let r = match b {
            0x00 => Some(Opcode::Unreachable),
            0x01 => Some(Opcode::Nop),
            0x02 => Some(Opcode::Block),
            0x03 => Some(Opcode::Loop),
            0x04 => Some(Opcode::If),
            0x05 => Some(Opcode::Else),
            0x0B => Some(Opcode::End),
            0x0C => Some(Opcode::Br),
            0x0D => Some(Opcode::BrIf),
            0x0E => Some(Opcode::BrTable),
            0x0F => Some(Opcode::Return),
            0x10 => Some(Opcode::Call),
            0x11 => Some(Opcode::CallIndirect),
            0x1A => Some(Opcode::Drop),
            0x1B => Some(Opcode::Select),
            0x1C => Some(Opcode::SelectValueType),
            0x20 => Some(Opcode::LocalGet),
            0x21 => Some(Opcode::LocalSet),
            0x22 => Some(Opcode::LocalTee),
            0x23 => Some(Opcode::GlobalGet),
            0x24 => Some(Opcode::GlobalSet),
            0x25 => Some(Opcode::TableGet),
            0x26 => Some(Opcode::TableSet),
            0x28 => Some(Opcode::I32Load),
            0x29 => Some(Opcode::I64Load),
            0x2A => Some(Opcode::F32Load),
            0x2B => Some(Opcode::F64Load),
            0x2C => Some(Opcode::I32Load8s),
            0x2D => Some(Opcode::I32Load8u),
            0x2E => Some(Opcode::I32Load16s),
            0x2F => Some(Opcode::I32Load16u),
            0x30 => Some(Opcode::I64Load8s),
            0x31 => Some(Opcode::I64Load8u),
            0x32 => Some(Opcode::I64Load16s),
            0x33 => Some(Opcode::I64Load16u),
            0x34 => Some(Opcode::I64Load32s),
            0x35 => Some(Opcode::I64Load32u),
            0x36 => Some(Opcode::I32Store),
            0x37 => Some(Opcode::I64Store),
            0x38 => Some(Opcode::F32Store),
            0x39 => Some(Opcode::F64Store),
            0x3A => Some(Opcode::I32Store8),
            0x3B => Some(Opcode::I32Store16),
            0x3C => Some(Opcode::I64Store8),
            0x3D => Some(Opcode::I64Store16),
            0x3E => Some(Opcode::I64Store32),
            0x3F => Some(Opcode::MemorySize),
            0x40 => Some(Opcode::MemoryGrow),
            0x41 => Some(Opcode::I32Const),
            0x42 => Some(Opcode::I64Const),
            0x43 => Some(Opcode::F32Const),
            0x44 => Some(Opcode::F64Const),
            0x45 => Some(Opcode::I32Eqz),
            0x46 => Some(Opcode::I32Eq),
            0x47 => Some(Opcode::I32Ne),
            0x48 => Some(Opcode::I32LtS),
            0x49 => Some(Opcode::I32LtU),
            0x4A => Some(Opcode::I32GtS),
            0x4B => Some(Opcode::I32GtU),
            0x4C => Some(Opcode::I32LeS),
            0x4D => Some(Opcode::I32LeU),
            0x4E => Some(Opcode::I32GeS),
            0x4F => Some(Opcode::I32GeU),
            0x50 => Some(Opcode::I64Eqz),
            0x51 => Some(Opcode::I64Eq),
            0x52 => Some(Opcode::I64Ne),
            0x53 => Some(Opcode::I64LtS),
            0x54 => Some(Opcode::I64LtU),
            0x55 => Some(Opcode::I64GtS),
            0x56 => Some(Opcode::I64GtU),
            0x57 => Some(Opcode::I64LeS),
            0x58 => Some(Opcode::I64LeU),
            0x59 => Some(Opcode::I64GeS),
            0x5A => Some(Opcode::I64GeU),
            0x5B => Some(Opcode::F32Eq),
            0x5C => Some(Opcode::F32Ne),
            0x5D => Some(Opcode::F32Lt),
            0x5E => Some(Opcode::F32Gt),
            0x5F => Some(Opcode::F32Le),
            0x60 => Some(Opcode::F32Ge),
            0x61 => Some(Opcode::F64Eq),
            0x62 => Some(Opcode::F64Ne),
            0x63 => Some(Opcode::F64Lt),
            0x64 => Some(Opcode::F64Gt),
            0x65 => Some(Opcode::F64Le),
            0x66 => Some(Opcode::F64Ge),
            0x67 => Some(Opcode::I32Clz),
            0x68 => Some(Opcode::I32Ctz),
            0x69 => Some(Opcode::I32Popcnt),
            0x6A => Some(Opcode::I32Add),
            0x6B => Some(Opcode::I32Sub),
            0x6C => Some(Opcode::I32Mul),
            0x6D => Some(Opcode::I32DivS),
            0x6E => Some(Opcode::I32DivU),
            0x6F => Some(Opcode::I32RemS),
            0x70 => Some(Opcode::I32RemU),
            0x71 => Some(Opcode::I32And),
            0x72 => Some(Opcode::I32Or),
            0x73 => Some(Opcode::I32Xor),
            0x74 => Some(Opcode::I32Shl),
            0x75 => Some(Opcode::I32ShrS),
            0x76 => Some(Opcode::I32ShrU),
            0x77 => Some(Opcode::I32Rotl),
            0x78 => Some(Opcode::I32Rotr),
            0x79 => Some(Opcode::I64Clz),
            0x7A => Some(Opcode::I64Ctz),
            0x7B => Some(Opcode::I64Popcnt),
            0x7C => Some(Opcode::I64Add),
            0x7D => Some(Opcode::I64Sub),
            0x7E => Some(Opcode::I64Mul),
            0x7F => Some(Opcode::I64DivS),
            0x80 => Some(Opcode::I64DivU),
            0x81 => Some(Opcode::I64RemS),
            0x82 => Some(Opcode::I64RemU),
            0x83 => Some(Opcode::I64And),
            0x84 => Some(Opcode::I64Or),
            0x85 => Some(Opcode::I64Xor),
            0x86 => Some(Opcode::I64Shl),
            0x87 => Some(Opcode::I64ShrS),
            0x88 => Some(Opcode::I64ShrU),
            0x89 => Some(Opcode::I64Rotl),
            0x8A => Some(Opcode::I64Rotr),
            0x8B => Some(Opcode::F32Abs),
            0x8C => Some(Opcode::F32Neg),
            0x8D => Some(Opcode::F32Ceil),
            0x8E => Some(Opcode::F32Floor),
            0x8F => Some(Opcode::F32Trunc),
            0x90 => Some(Opcode::F32Nearest),
            0x91 => Some(Opcode::F32Sqrt),
            0x92 => Some(Opcode::F32Add),
            0x93 => Some(Opcode::F32Sub),
            0x94 => Some(Opcode::F32Mul),
            0x95 => Some(Opcode::F32Div),
            0x96 => Some(Opcode::F32Min),
            0x97 => Some(Opcode::F32Max),
            0x98 => Some(Opcode::F32Copysign),
            0x99 => Some(Opcode::F64Abs),
            0x9A => Some(Opcode::F64Neg),
            0x9B => Some(Opcode::F64Ceil),
            0x9C => Some(Opcode::F64Floor),
            0x9D => Some(Opcode::F64Trunc),
            0x9E => Some(Opcode::F64Nearest),
            0x9F => Some(Opcode::F64Sqrt),
            0xA0 => Some(Opcode::F64Add),
            0xA1 => Some(Opcode::F64Sub),
            0xA2 => Some(Opcode::F64Mul),
            0xA3 => Some(Opcode::F64Div),
            0xA4 => Some(Opcode::F64Min),
            0xA5 => Some(Opcode::F64Max),
            0xA6 => Some(Opcode::F64Copysign),
            0xA7 => Some(Opcode::I32WrapI64),
            0xA8 => Some(Opcode::I32TruncF32S),
            0xA9 => Some(Opcode::I32TruncF32U),
            0xAA => Some(Opcode::I32TruncF64S),
            0xAB => Some(Opcode::I32TruncF64U),
            0xAC => Some(Opcode::I64ExtendI32S),
            0xAD => Some(Opcode::I64ExtendI32U),
            0xAE => Some(Opcode::I64TruncF32S),
            0xAF => Some(Opcode::I64TruncF32U),
            0xB0 => Some(Opcode::I64TruncF64S),
            0xB1 => Some(Opcode::I64TruncF64U),
            0xB2 => Some(Opcode::F32ConvertI32S),
            0xB3 => Some(Opcode::F32ConvertI32U),
            0xB4 => Some(Opcode::F32ConvertI64S),
            0xB5 => Some(Opcode::F32ConvertI64U),
            0xB6 => Some(Opcode::F32DemoteF64),
            0xB7 => Some(Opcode::F64ConvertI32S),
            0xB8 => Some(Opcode::F64ConvertI32U),
            0xB9 => Some(Opcode::F64ConvertI64S),
            0xBA => Some(Opcode::F64ConvertI64U),
            0xBB => Some(Opcode::F64PromoteF32),
            0xBC => Some(Opcode::I32ReinterpretF32),
            0xBD => Some(Opcode::I64ReinterpretF64),
            0xBE => Some(Opcode::F32ReinterpretI32),
            0xBF => Some(Opcode::F64ReinterpretI64),
            0xC0 => Some(Opcode::I32Extend8S),
            0xC1 => Some(Opcode::I32Extend16S),
            0xC2 => Some(Opcode::I64Extend8S),
            0xC3 => Some(Opcode::I64Extend16S),
            0xC4 => Some(Opcode::I64Extend32S),
            0xD0 => Some(Opcode::RefNull),
            0xD1 => Some(Opcode::RefIsNull),
            0xD2 => Some(Opcode::RefFunc),
            0xFC => Some(Opcode::Extension),
            _ => None,
        };
        proof {
            match r {
                Some(x) => {
                    assert(x.byte() == b);
                    let y = choose|y: Opcode| y.byte() == b;
                    assert(y.byte() == b);
                    assert(y == x);
                },
                None => {
                    assert forall|x: Opcode| x.byte() != b by {}
                },
            }
        }
        r
    }
}

} // verus!
