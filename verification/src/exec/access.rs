//! Loads and stores: the bytes that a value takes in the memory.

use vstd::prelude::*;
use crate::exec::error::ExecutionError;
use crate::exec::instruction::{Instruction, MemArg};
use crate::exec::memory::{checked_area, splice, MemObject, Memory, MemoryView};
use crate::exec::numeric::{
    extend_s,
    i32_to_u32,
    i64_to_u64,
    u32_of,
    u64_of,
};
use crate::exec::types::Value;
use crate::parse::types::Type;

verus! {

/// What a load or a store does: the immediate, the number of bytes that it
/// moves, the type of the value, whether a load reads the bytes as a signed
/// number, and whether it is a store.
#[derive(Clone, Copy, Debug, PartialEq, Eq, Structural)]
pub struct Access {
    pub memarg: MemArg,
    pub width: u8,
    pub value_type: Type,
    pub signed: bool,
    pub store: bool,
}

impl Access {
    /// An access moves 1, 2, 4 or 8 bytes of a number or of a float's bit
    /// pattern, no more than the type has; a load of a whole integer reads
    /// the bytes as signed.
    pub open spec fn wf(self) -> bool {
        &&& (self.width == 1 || self.width == 2 || self.width == 4 || self.width == 8)
        &&& (self.value_type == Type::I32 || self.value_type == Type::I64 || self.value_type
            == Type::F32 || self.value_type == Type::F64)
        &&& (self.value_type == Type::I32 || self.value_type == Type::F32 ==> self.width <= 4)
        &&& (!self.store && self.value_type == Type::I32 && self.width == 4 ==> self.signed)
        &&& (!self.store && self.value_type == Type::I64 && self.width == 8 ==> self.signed)
    }
}

impl Instruction {
    /// What this instruction does to the memory, if it is a load or a store.
    pub open spec fn access(&self) -> Option<Access> {
        match self {
            Instruction::I32Load(memarg) => Some(
                Access {
                    memarg: *memarg,
                    width: 4,
                    value_type: Type::I32,
                    signed: true,
                    store: false,
                },
            ),
            Instruction::I64Load(memarg) => Some(
                Access {
                    memarg: *memarg,
                    width: 8,
                    value_type: Type::I64,
                    signed: true,
                    store: false,
                },
            ),
            Instruction::F32Load(memarg) => Some(
                Access {
                    memarg: *memarg,
                    width: 4,
                    value_type: Type::F32,
                    signed: false,
                    store: false,
                },
            ),
            Instruction::F64Load(memarg) => Some(
                Access {
                    memarg: *memarg,
                    width: 8,
                    value_type: Type::F64,
                    signed: false,
                    store: false,
                },
            ),
            Instruction::I32Load8s(memarg) => Some(
                Access {
                    memarg: *memarg,
                    width: 1,
                    value_type: Type::I32,
                    signed: true,
                    store: false,
                },
            ),
            Instruction::I32Load8u(memarg) => Some(
                Access {
                    memarg: *memarg,
                    width: 1,
                    value_type: Type::I32,
                    signed: false,
                    store: false,
                },
            ),
            Instruction::I32Load16s(memarg) => Some(
                Access {
                    memarg: *memarg,
                    width: 2,
                    value_type: Type::I32,
                    signed: true,
                    store: false,
                },
            ),
            Instruction::I32Load16u(memarg) => Some(
                Access {
                    memarg: *memarg,
                    width: 2,
                    value_type: Type::I32,
                    signed: false,
                    store: false,
                },
            ),
            Instruction::I64Load8s(memarg) => Some(
                Access {
                    memarg: *memarg,
                    width: 1,
                    value_type: Type::I64,
                    signed: true,
                    store: false,
                },
            ),
            Instruction::I64Load8u(memarg) => Some(
                Access {
                    memarg: *memarg,
                    width: 1,
                    value_type: Type::I64,
                    signed: false,
                    store: false,
                },
            ),
            Instruction::I64Load16s(memarg) => Some(
                Access {
                    memarg: *memarg,
                    width: 2,
                    value_type: Type::I64,
                    signed: true,
                    store: false,
                },
            ),
            Instruction::I64Load16u(memarg) => Some(
                Access {
                    memarg: *memarg,
                    width: 2,
                    value_type: Type::I64,
                    signed: false,
                    store: false,
                },
            ),
            Instruction::I64Load32s(memarg) => Some(
                Access {
                    memarg: *memarg,
                    width: 4,
                    value_type: Type::I64,
                    signed: true,
                    store: false,
                },
            ),
            Instruction::I64Load32u(memarg) => Some(
                Access {
                    memarg: *memarg,
                    width: 4,
                    value_type: Type::I64,
                    signed: false,
                    store: false,
                },
            ),
            Instruction::I32Store(memarg) => Some(
                Access {
                    memarg: *memarg,
                    width: 4,
                    value_type: Type::I32,
                    signed: false,
                    store: true,
                },
            ),
            Instruction::I64Store(memarg) => Some(
                Access {
                    memarg: *memarg,
                    width: 8,
                    value_type: Type::I64,
                    signed: false,
                    store: true,
                },
            ),
            Instruction::F32Store(memarg) => Some(
                Access {
                    memarg: *memarg,
                    width: 4,
                    value_type: Type::F32,
                    signed: false,
                    store: true,
                },
            ),
            Instruction::F64Store(memarg) => Some(
                Access {
                    memarg: *memarg,
                    width: 8,
                    value_type: Type::F64,
                    signed: false,
                    store: true,
                },
            ),
            Instruction::I32Store8(memarg) => Some(
                Access {
                    memarg: *memarg,
                    width: 1,
                    value_type: Type::I32,
                    signed: false,
                    store: true,
                },
            ),
            Instruction::I32Store16(memarg) => Some(
                Access {
                    memarg: *memarg,
                    width: 2,
                    value_type: Type::I32,
                    signed: false,
                    store: true,
                },
            ),
            Instruction::I64Store8(memarg) => Some(
                Access {
                    memarg: *memarg,
                    width: 1,
                    value_type: Type::I64,
                    signed: false,
                    store: true,
                },
            ),
            Instruction::I64Store16(memarg) => Some(
                Access {
                    memarg: *memarg,
                    width: 2,
                    value_type: Type::I64,
                    signed: false,
                    store: true,
                },
            ),
            Instruction::I64Store32(memarg) => Some(
                Access {
                    memarg: *memarg,
                    width: 4,
                    value_type: Type::I64,
                    signed: false,
                    store: true,
                },
            ),
            _ => None,
        }
    }

    /// Tells what this instruction does to the memory, if it is a load or a
    /// store.
    pub fn access_of(&self) -> (r: Option<Access>)
        ensures
            r == self.access(),
            r matches Some(access) ==> access.wf(),
    {
        match self {
            Instruction::I32Load(memarg) => Some(
                Access {
                    memarg: *memarg,
                    width: 4,
                    value_type: Type::I32,
                    signed: true,
                    store: false,
                },
            ),
            Instruction::I64Load(memarg) => Some(
                Access {
                    memarg: *memarg,
                    width: 8,
                    value_type: Type::I64,
                    signed: true,
                    store: false,
                },
            ),
            Instruction::F32Load(memarg) => Some(
                Access {
                    memarg: *memarg,
                    width: 4,
                    value_type: Type::F32,
                    signed: false,
                    store: false,
                },
            ),
            Instruction::F64Load(memarg) => Some(
                Access {
                    memarg: *memarg,
                    width: 8,
                    value_type: Type::F64,
                    signed: false,
                    store: false,
                },
            ),
            Instruction::I32Load8s(memarg) => Some(
                Access {
                    memarg: *memarg,
                    width: 1,
                    value_type: Type::I32,
                    signed: true,
                    store: false,
                },
            ),
            Instruction::I32Load8u(memarg) => Some(
                Access {
                    memarg: *memarg,
                    width: 1,
                    value_type: Type::I32,
                    signed: false,
                    store: false,
                },
            ),
            Instruction::I32Load16s(memarg) => Some(
                Access {
                    memarg: *memarg,
                    width: 2,
                    value_type: Type::I32,
                    signed: true,
                    store: false,
                },
            ),
            Instruction::I32Load16u(memarg) => Some(
                Access {
                    memarg: *memarg,
                    width: 2,
                    value_type: Type::I32,
                    signed: false,
                    store: false,
                },
            ),
            Instruction::I64Load8s(memarg) => Some(
                Access {
                    memarg: *memarg,
                    width: 1,
                    value_type: Type::I64,
                    signed: true,
                    store: false,
                },
            ),
            Instruction::I64Load8u(memarg) => Some(
                Access {
                    memarg: *memarg,
                    width: 1,
                    value_type: Type::I64,
                    signed: false,
                    store: false,
                },
            ),
            Instruction::I64Load16s(memarg) => Some(
                Access {
                    memarg: *memarg,
                    width: 2,
                    value_type: Type::I64,
                    signed: true,
                    store: false,
                },
            ),
            Instruction::I64Load16u(memarg) => Some(
                Access {
                    memarg: *memarg,
                    width: 2,
                    value_type: Type::I64,
                    signed: false,
                    store: false,
                },
            ),
            Instruction::I64Load32s(memarg) => Some(
                Access {
                    memarg: *memarg,
                    width: 4,
                    value_type: Type::I64,
                    signed: true,
                    store: false,
                },
            ),
            Instruction::I64Load32u(memarg) => Some(
                Access {
                    memarg: *memarg,
                    width: 4,
                    value_type: Type::I64,
                    signed: false,
                    store: false,
                },
            ),
            Instruction::I32Store(memarg) => Some(
                Access {
                    memarg: *memarg,
                    width: 4,
                    value_type: Type::I32,
                    signed: false,
                    store: true,
                },
            ),
            Instruction::I64Store(memarg) => Some(
                Access {
                    memarg: *memarg,
                    width: 8,
                    value_type: Type::I64,
                    signed: false,
                    store: true,
                },
            ),
            Instruction::F32Store(memarg) => Some(
                Access {
                    memarg: *memarg,
                    width: 4,
                    value_type: Type::F32,
                    signed: false,
                    store: true,
                },
            ),
            Instruction::F64Store(memarg) => Some(
                Access {
                    memarg: *memarg,
                    width: 8,
                    value_type: Type::F64,
                    signed: false,
                    store: true,
                },
            ),
            Instruction::I32Store8(memarg) => Some(
                Access {
                    memarg: *memarg,
                    width: 1,
                    value_type: Type::I32,
                    signed: false,
                    store: true,
                },
            ),
            Instruction::I32Store16(memarg) => Some(
                Access {
                    memarg: *memarg,
                    width: 2,
                    value_type: Type::I32,
                    signed: false,
                    store: true,
                },
            ),
            Instruction::I64Store8(memarg) => Some(
                Access {
                    memarg: *memarg,
                    width: 1,
                    value_type: Type::I64,
                    signed: false,
                    store: true,
                },
            ),
            Instruction::I64Store16(memarg) => Some(
                Access {
                    memarg: *memarg,
                    width: 2,
                    value_type: Type::I64,
                    signed: false,
                    store: true,
                },
            ),
            Instruction::I64Store32(memarg) => Some(
                Access {
                    memarg: *memarg,
                    width: 4,
                    value_type: Type::I64,
                    signed: false,
                    store: true,
                },
            ),
            _ => None,
        }
    }
}

/// The bit pattern of a value; 0 for a value that is no operand.
pub open spec fn bits_of(value: Value) -> u64 {
    match value {
        Value::I32(x) => u32_of(x) as u64,
        Value::I64(x) => u64_of(x),
        Value::F32(bits) => bits as u64,
        Value::F64(bits) => bits,
        _ => 0,
    }
}

/// Tells the bit pattern of a value.
pub fn raw_bits(value: Value) -> (r: u64)
    ensures
        r == bits_of(value),
{
    match value {
        Value::I32(x) => i32_to_u32(x) as u64,
        Value::I64(x) => i64_to_u64(x),
        Value::F32(bits) => bits as u64,
        Value::F64(bits) => bits,
        _ => 0,
    }
}

/// The number of values that `width` bytes can hold.
pub open spec fn modulus(width: u8) -> int {
    if width == 1 {
        0x100
    } else if width == 2 {
        0x1_0000
    } else if width == 4 {
        0x1_0000_0000
    } else {
        0x1_0000_0000_0000_0000
    }
}

/// The `width` bytes that a store writes for the bit pattern `bits`: its
/// lowest bytes, least significant first.
pub open spec fn stored_bytes(bits: u64, width: u8) -> Seq<u8> {
    if width == 1 {
        ((bits % 0x100) as u8).to_bytes()
    } else if width == 2 {
        ((bits % 0x1_0000) as u16).to_bytes()
    } else if width == 4 {
        ((bits % 0x1_0000_0000) as u32).to_bytes()
    } else {
        bits.to_bytes()
    }
}

/// The number that a load reads from `width` bytes, least significant first.
pub open spec fn loaded_bits(bytes: Seq<u8>, width: u8) -> u64 {
    if width == 1 {
        u8::from_bytes(bytes) as u64
    } else if width == 2 {
        u16::from_bytes(bytes) as u64
    } else if width == 4 {
        u32::from_bytes(bytes) as u64
    } else {
        u64::from_bytes(bytes)
    }
}

/// The value that a load gives for the number `bits` read from the memory:
/// the number itself, or its signed reading, as the type of the access.
pub open spec fn value_of_bits(bits: u64, access: Access) -> Value {
    let number = if access.signed {
        extend_s(bits as int, modulus(access.width))
    } else {
        bits as int
    };
    match access.value_type {
        Type::I32 => Value::I32(number as i32),
        Type::I64 => Value::I64(number as i64),
        Type::F32 => Value::F32(bits as u32),
        _ => Value::F64(bits),
    }
}

/// Makes the value that a load gives for the number `bits`.
pub fn make_value(bits: u64, access: Access) -> (r: Value)
    requires
        access.wf(),
        !access.store,
        bits < modulus(access.width),
    ensures
        r == value_of_bits(bits, access),
{
    let number: i128 = if access.signed {
        let full: i128 = if access.width == 1 {
            0x100
        } else if access.width == 2 {
            0x1_0000
        } else if access.width == 4 {
            0x1_0000_0000
        } else {
            0x1_0000_0000_0000_0000
        };
        if bits as i128 >= full / 2 {
            bits as i128 - full
        } else {
            bits as i128
        }
    } else {
        bits as i128
    };
    match access.value_type {
        Type::I32 => Value::I32(number as i32),
        Type::I64 => Value::I64(number as i64),
        Type::F32 => Value::F32(bits as u32),
        _ => Value::F64(bits),
    }
}

/// What a load from `memory` gives: the value read at the address `base`
/// plus the offset of the immediate, `base` taken as unsigned.
pub open spec fn load_from(memory: Option<MemoryView>, access: Access, base: i32) -> Result<
    Value,
    ExecutionError,
> {
    match memory {
        None => Err(ExecutionError::NoMemory),
        Some(m) => match checked_area(
            u32_of(base) + access.memarg.offset,
            access.width as int,
            m.data.len(),
        ) {
            Ok(address) => Ok(
                value_of_bits(
                    loaded_bits(m.data.subrange(address as int, address + access.width), access.width),
                    access,
                ),
            ),
            Err(e) => Err(e),
        },
    }
}

/// What a store of `value` does to `memory`: the bytes of the memory after it,
/// or the error.  A store that fails changes nothing.
pub open spec fn store_to(
    memory: Option<MemoryView>,
    access: Access,
    base: i32,
    value: Value,
) -> Result<
    Seq<u8>,
    ExecutionError,
> {
    match memory {
        None => Err(ExecutionError::NoMemory),
        Some(m) => match checked_area(
            u32_of(base) + access.memarg.offset,
            access.width as int,
            m.data.len(),
        ) {
            Ok(address) => Ok(
                splice(m.data, address as int, stored_bytes(bits_of(value), access.width)),
            ),
            Err(e) => Err(e),
        },
    }
}

/// The model of a memory that may be absent.
pub open spec fn memory_view(memory: Option<Memory>) -> Option<MemoryView> {
    match memory {
        Some(m) => Some(m@),
        None => None,
    }
}

/// Reads a value from the memory.
pub fn load_value(memory: &Option<Memory>, access: Access, base: i32) -> (r: Result<
    Value,
    ExecutionError,
>)
    requires
        access.wf(),
        !access.store,
    ensures
        r == load_from(memory_view(*memory), access, base),
{
    match memory {
        None => Err(ExecutionError::NoMemory),
        Some(m) => {
            let address = match m.check_area(
                i32_to_u32(base) as usize,
                access.memarg.offset,
                access.width as usize,
            ) {
                Ok(found) => found,
                Err(e) => {
                    return Err(e);
                },
            };
            let bits: u64 = if access.width == 1 {
                m.read::<u8>(address) as u64
            } else if access.width == 2 {
                m.read::<u16>(address) as u64
            } else if access.width == 4 {
                m.read::<u32>(address) as u64
            } else {
                m.read::<u64>(address)
            };
            Ok(make_value(bits, access))
        },
    }
}

/// Writes a value to the memory.
pub fn store_value(
    memory: &mut Option<Memory>,
    access: Access,
    base: i32,
    value: Value,
) -> (r: Result<
    (),
    ExecutionError,
>)
    requires
        access.wf(),
        *old(memory) matches Some(m) ==> m.wf(),
    ensures
        *final(memory) matches Some(m) ==> m.wf(),
        match store_to(memory_view(*old(memory)), access, base, value) {
            Ok(data) => r == Ok::<(), ExecutionError>(()) && memory_view(*final(memory)) == Some(
                memory_view(*old(memory))->Some_0.with_data(data),
            ),
            Err(e) => r == Err::<(), ExecutionError>(e) && memory_view(*final(memory))
                == memory_view(*old(memory)),
        },
{
    match memory {
        None => Err(ExecutionError::NoMemory),
        Some(m) => {
            let address = match m.check_area(
                i32_to_u32(base) as usize,
                access.memarg.offset,
                access.width as usize,
            ) {
                Ok(found) => found,
                Err(e) => {
                    return Err(e);
                },
            };
            let bits = raw_bits(value);
            if access.width == 1 {
                m.write::<u8>(&((bits % 0x100) as u8), address);
            } else if access.width == 2 {
                m.write::<u16>(&((bits % 0x1_0000) as u16), address);
            } else if access.width == 4 {
                m.write::<u32>(&((bits % 0x1_0000_0000) as u32), address);
            } else {
                m.write::<u64>(&bits, address);
            }
            Ok(())
        },
    }
}

} // verus!
