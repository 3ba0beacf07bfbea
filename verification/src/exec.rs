//! The executor: values, memory, the operand stack and the stack machine.
//!
//! An [`Instance`] is built from a decoded module and the list of functions
//! that the host offers.  It runs in steps: `start` and `run` take a number
//! of steps and tell how the last one ended, so that the host can perform a
//! host function, note an instruction that was passed over, or go on.  A call
//! of a host function is on the call stack like any other call; the machine
//! waits until the host hands back the result with `Instance::host_return`,
//! or with `wasi::fd_write_done` for `fd_write`.  What a step does is the
//! function `control::step` on the model of the instance.
//!
//! The machine executes constants, the arithmetic on 32-bit and 64-bit
//! integers, loads and stores of every width, `memory.size` and
//! `memory.grow`, `drop`, `select`, blocks, loops, conditionals, `return` and
//! calls.  It passes over, and reports as `Outcome::Unimplemented`: the
//! branches `br`, `br_if` and `br_table`, so that a loop runs its body once;
//! the accesses to locals, globals and tables; `call_indirect`; the reference
//! instructions; and the arithmetic on floats, of which only the constants,
//! the loads and stores and the reinterpretations of bit patterns run.

pub mod access;
pub mod arithmetic;
pub mod control;
pub mod error;
pub mod instance;
pub mod instruction;
pub mod machine;
pub mod memory;
pub mod numeric;
pub mod operand_stack;
pub mod properties;
pub mod types;
pub mod wasi;

pub use control::{Level, Outcome};
pub use error::{AddressRange, ExecutionError};
pub use instance::{Frame, Instance};
pub use instruction::{Immediates, Instruction, InstructionView, MemArg};
pub use memory::{MemObject, Memory, MEMORY_PAGE_SIZE};
pub use operand_stack::{Operand, OperandStack};
pub use types::{
    Callable, ExternFunction, FunctionSignature, Functions, HostFunction, Identifier, Value,
    WasmFunction,
};
