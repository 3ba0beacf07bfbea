//! The failures of instantiation and execution.

use vstd::prelude::*;
use crate::exec::types::{Identifier, Value};
use crate::parse::types::Type;

verus! {

/// A range of addresses of the linear memory: from `start` up to, not
/// including, `end`.
#[derive(Clone, Copy, Debug, PartialEq, Eq, Structural)]
pub struct AddressRange {
    pub start: usize,
    pub end: usize,
}

/// Why a module could not be instantiated, or why its execution trapped.
#[derive(Debug, PartialEq, Eq)]
pub enum ExecutionError {
    /// A memory instruction ran in a module without memory.
    NoMemory,
    /// An access outside the memory: the addresses asked for and the size of
    /// the memory.  An address beyond the greatest index is given as that
    /// index.
    InvalidMemoryArea { addr: AddressRange, size: usize },
    /// A call of a function that the table does not hold.
    FunctionIndexOutOfBounds { index: usize, len: usize },
    /// A value was taken from the empty operand stack.
    PopOnEmptyOperandStack,
    /// The value on the operand stack has another type than the instruction
    /// takes.
    StackTypeError { expected: Type, got: Value },
    /// The instruction `unreachable` ran.
    Unreachable,
    /// A division or a remainder by zero.
    DivideByZero,
    /// The signed division of the least number by -1.
    IntegerOverflow,
    /// The memory was asked to grow beyond its page limit, or beyond what the
    /// machine can address.
    MemoryLimitExceeded { pages: u64, limit: u64 },
    /// The page limit of a blueprint has its minimum above its maximum.
    InvalidPageLimit { start: u64, end: u64 },
    /// No function is exported as `_start`.
    NoStart,
    /// The host provides no function for an import.
    UnresolvedImport(Identifier),
    /// The host function for an import has another signature than the module
    /// declares.
    SignatureMismatch(Identifier),
}

} // verus!
