//! The instructions that work on the operand stack and on the memory alone.

use vstd::prelude::*;
use crate::exec::access::{load_from, load_value, memory_view, store_to, store_value, Access};
use crate::exec::arithmetic::{compute, constant, evaluate, Shape};
use crate::exec::error::ExecutionError;
use crate::exec::instruction::Instruction;
use crate::exec::memory::{grown, Memory, MemoryView};
use crate::exec::numeric::{i32_of, i32_to_u32, u32_of, u32_to_i32};
use crate::exec::operand_stack::{pop_rest, pop_result, typed_top, OperandStack};
use crate::exec::types::Value;
use crate::parse::types::Type;

verus! {

/// What an instruction leaves behind: the operand stack, the memory, and
/// whether it trapped.  An instruction that traps leaves the stack without
/// the operands that it had taken by then, and leaves the memory unchanged.
pub struct Effect {
    pub stack: Seq<Value>,
    pub memory: Option<MemoryView>,
    pub result: Result<(), ExecutionError>,
}

/// The number of pages as the 32-bit number that `memory.size` pushes.
pub open spec fn pages_value(pages: nat) -> Value {
    Value::I32(i32_of((pages % 0x1_0000_0000) as u32))
}

/// What an instruction that works on the operand stack alone leaves behind:
/// the stack, and whether it trapped.
pub struct StackEffect {
    pub stack: Seq<Value>,
    pub result: Result<(), ExecutionError>,
}

impl StackEffect {
    /// This effect on an instance with the memory `memory`, which it leaves
    /// as it is.
    pub open spec fn beside(self, memory: Option<MemoryView>) -> Effect {
        Effect { stack: self.stack, memory, result: self.result }
    }
}

/// What an arithmetic instruction with the signature `shape` leaves behind:
/// it takes its operands from the stack, the second from the top, and puts
/// the result back.
pub open spec fn arithmetic_effect(
    instruction: Instruction,
    shape: Shape,
    stack: Seq<Value>,
) -> StackEffect {
    if shape.operands == 0 {
        StackEffect { stack: stack.push(constant(instruction)), result: Ok(()) }
    } else if shape.operands == 1 {
        let rest = pop_rest(stack);
        match typed_top(stack, shape.operand_type) {
            Ok(a) => match compute(instruction, a, a) {
                Ok(value) => StackEffect { stack: rest.push(value), result: Ok(()) },
                Err(e) => StackEffect { stack: rest, result: Err(e) },
            },
            Err(e) => StackEffect { stack: rest, result: Err(e) },
        }
    } else {
        let rest = pop_rest(stack);
        match typed_top(stack, shape.operand_type) {
            Ok(b) => match typed_top(rest, shape.operand_type) {
                Ok(a) => match compute(instruction, a, b) {
                    Ok(value) => StackEffect { stack: pop_rest(rest).push(value), result: Ok(()) },
                    Err(e) => StackEffect { stack: pop_rest(rest), result: Err(e) },
                },
                Err(e) => StackEffect { stack: pop_rest(rest), result: Err(e) },
            },
            Err(e) => StackEffect { stack: rest, result: Err(e) },
        }
    }
}

/// What a load or a store leaves behind.  A load takes the address from the
/// stack and puts the value back; a store takes the value, then the address.
pub open spec fn access_effect(
    access: Access,
    stack: Seq<Value>,
    memory: Option<MemoryView>,
) -> Effect {
    if access.store {
        let rest = pop_rest(stack);
        match typed_top(stack, access.value_type) {
            Ok(value) => match typed_top(rest, Type::I32) {
                Ok(base) => match store_to(memory, access, base->I32_0, value) {
                    Ok(data) => Effect {
                        stack: pop_rest(rest),
                        memory: Some(memory->Some_0.with_data(data)),
                        result: Ok(()),
                    },
                    Err(e) => Effect { stack: pop_rest(rest), memory, result: Err(e) },
                },
                Err(e) => Effect { stack: pop_rest(rest), memory, result: Err(e) },
            },
            Err(e) => Effect { stack: rest, memory, result: Err(e) },
        }
    } else {
        let rest = pop_rest(stack);
        match typed_top(stack, Type::I32) {
            Ok(base) => match load_from(memory, access, base->I32_0) {
                Ok(value) => Effect { stack: rest.push(value), memory, result: Ok(()) },
                Err(e) => Effect { stack: rest, memory, result: Err(e) },
            },
            Err(e) => Effect { stack: rest, memory, result: Err(e) },
        }
    }
}

/// What `select` leaves behind: it takes the condition and two values, and
/// puts back the first value for a condition other than zero, else the
/// second.
pub open spec fn select_effect(stack: Seq<Value>) -> StackEffect {
    let rest = pop_rest(stack);
    match typed_top(stack, Type::I32) {
        Ok(condition) => match pop_result::<Value>(rest) {
            Ok(second) => match pop_result::<Value>(pop_rest(rest)) {
                Ok(first) => StackEffect {
                    stack: pop_rest(pop_rest(rest)).push(
                        if condition->I32_0 != 0 {
                            first
                        } else {
                            second
                        },
                    ),
                    result: Ok(()),
                },
                Err(e) => StackEffect { stack: pop_rest(pop_rest(rest)), result: Err(e) },
            },
            Err(e) => StackEffect { stack: pop_rest(rest), result: Err(e) },
        },
        Err(e) => StackEffect { stack: rest, result: Err(e) },
    }
}

/// What `memory.grow` leaves behind: it takes the number of pages to add and
/// puts back the number of pages before.  Growth beyond the limit traps.
pub open spec fn grow_effect(stack: Seq<Value>, memory: Option<MemoryView>) -> Effect {
    let rest = pop_rest(stack);
    match typed_top(stack, Type::I32) {
        Ok(delta) => match memory {
            Some(m) => match grown(m, u32_of(delta->I32_0)) {
                Ok(data) => Effect {
                    stack: rest.push(pages_value(m.pages())),
                    memory: Some(m.with_data(data)),
                    result: Ok(()),
                },
                Err(e) => Effect { stack: rest, memory, result: Err(e) },
            },
            None => Effect { stack: rest, memory, result: Err(ExecutionError::NoMemory) },
        },
        Err(e) => Effect { stack: rest, memory, result: Err(e) },
    }
}

/// What an instruction that works on the operand stack and the memory alone
/// leaves behind.  `None` for the instructions of control flow and for those
/// that the machine passes over.
pub open spec fn basic_effect(
    instruction: Instruction,
    stack: Seq<Value>,
    memory: Option<MemoryView>,
) -> Option<Effect> {
    match instruction.shape() {
        Some(shape) => Some(arithmetic_effect(instruction, shape, stack).beside(memory)),
        None => match instruction.access() {
            Some(access) => Some(access_effect(access, stack, memory)),
            None => match instruction {
                Instruction::Nop => Some(Effect { stack, memory, result: Ok(()) }),
                Instruction::Unreachable => Some(
                    Effect { stack, memory, result: Err(ExecutionError::Unreachable) },
                ),
                Instruction::Drop => Some(
                    Effect {
                        stack: pop_rest(stack),
                        memory,
                        result: match pop_result::<Value>(stack) {
                            Ok(_) => Ok(()),
                            Err(e) => Err(e),
                        },
                    },
                ),
                Instruction::Select => Some(select_effect(stack).beside(memory)),
                Instruction::MemorySize => Some(
                    match memory {
                        Some(m) => Effect {
                            stack: stack.push(pages_value(m.pages())),
                            memory,
                            result: Ok(()),
                        },
                        None => Effect { stack, memory, result: Err(ExecutionError::NoMemory) },
                    },
                ),
                Instruction::MemoryGrow => Some(grow_effect(stack, memory)),
                _ => None,
            },
        },
    }
}

/// Tells that the stack and the memory are what `effect` prescribes, and the
/// result is its result.
pub open spec fn effected(
    stack: Seq<Value>,
    memory: Option<MemoryView>,
    r: Result<(), ExecutionError>,
    effect: Effect,
) -> bool {
    stack == effect.stack && memory == effect.memory && r == effect.result
}

/// The number of pages as the value that `memory.size` pushes.
pub fn pages_as_value(pages: usize) -> (r: Value)
    ensures
        r == pages_value(pages as nat),
{
    Value::I32(u32_to_i32((pages as u64 % 0x1_0000_0000) as u32))
}

/// Runs an arithmetic instruction.
pub fn execute_arithmetic(instruction: &Instruction, shape: Shape, stack: &mut OperandStack) -> (r:
    Result<(), ExecutionError>)
    requires
        instruction.shape() == Some(shape),
    ensures
        final(stack)@ == arithmetic_effect(*instruction, shape, old(stack)@).stack,
        r == arithmetic_effect(*instruction, shape, old(stack)@).result,
{
    if shape.operands == 0 {
        let value = evaluate(instruction, Value::I32(0), Value::I32(0))?;
        stack.push(value);
        Ok(())
    } else if shape.operands == 1 {
        let a = stack.pop_typed(shape.operand_type)?;
        let value = evaluate(instruction, a, a)?;
        stack.push(value);
        Ok(())
    } else {
        let b = stack.pop_typed(shape.operand_type)?;
        let a = stack.pop_typed(shape.operand_type)?;
        let value = evaluate(instruction, a, b)?;
        stack.push(value);
        Ok(())
    }
}

/// Runs a load or a store.
pub fn execute_access(access: Access, stack: &mut OperandStack, memory: &mut Option<Memory>) -> (r:
    Result<(), ExecutionError>)
    requires
        access.wf(),
        *old(memory) matches Some(m) ==> m.wf(),
    ensures
        *final(memory) matches Some(m) ==> m.wf(),
        effected(
            final(stack)@,
            memory_view(*final(memory)),
            r,
            access_effect(access, old(stack)@, memory_view(*old(memory))),
        ),
{
    if access.store {
        let value = stack.pop_typed(access.value_type)?;
        let base = stack.pop::<i32>()?;
        store_value(memory, access, base, value)
    } else {
        let base = stack.pop::<i32>()?;
        let value = load_value(memory, access, base)?;
        stack.push(value);
        Ok(())
    }
}

/// Runs `select`.
pub fn execute_select(stack: &mut OperandStack) -> (r: Result<(), ExecutionError>)
    ensures
        final(stack)@ == select_effect(old(stack)@).stack,
        r == select_effect(old(stack)@).result,
{
    let condition = stack.pop::<i32>()?;
    let second = stack.pop::<Value>()?;
    let first = stack.pop::<Value>()?;
    if condition != 0 {
        stack.push(first);
    } else {
        stack.push(second);
    }
    Ok(())
}

/// Runs `memory.grow`.
pub fn execute_grow(stack: &mut OperandStack, memory: &mut Option<Memory>) -> (r: Result<
    (),
    ExecutionError,
>)
    requires
        *old(memory) matches Some(m) ==> m.wf(),
    ensures
        *final(memory) matches Some(m) ==> m.wf(),
        effected(
            final(stack)@,
            memory_view(*final(memory)),
            r,
            grow_effect(old(stack)@, memory_view(*old(memory))),
        ),
{
    let delta = stack.pop::<i32>()?;
    match memory {
        Some(m) => match m.try_grow(i32_to_u32(delta)) {
            Ok(pages) => {
                stack.push(pages_as_value(pages));
                Ok(())
            },
            Err(e) => Err(e),
        },
        None => Err(ExecutionError::NoMemory),
    }
}

/// Runs an instruction that works on the operand stack and the memory alone.
/// Returns `None`, and changes nothing, for another instruction.
pub fn execute_basic(instruction: &Instruction, stack: &mut OperandStack, memory: &mut Option<
    Memory,
>) -> (r: Option<Result<(), ExecutionError>>)
    requires
        *old(memory) matches Some(m) ==> m.wf(),
    ensures
        *final(memory) matches Some(m) ==> m.wf(),
        match basic_effect(*instruction, old(stack)@, memory_view(*old(memory))) {
            Some(effect) => r is Some && effected(
                final(stack)@,
                memory_view(*final(memory)),
                r->Some_0,
                effect,
            ),
            None => r is None && final(stack)@ == old(stack)@ && memory_view(*final(memory))
                == memory_view(*old(memory)),
        },
{
    match instruction.shape_of() {
        Some(shape) => {
            return Some(execute_arithmetic(instruction, shape, stack));
        },
        None => {},
    }
    match instruction.access_of() {
        Some(access) => {
            return Some(execute_access(access, stack, memory));
        },
        None => {},
    }
    match instruction {
        Instruction::Nop => Some(Ok(())),
        Instruction::Unreachable => Some(Err(ExecutionError::Unreachable)),
        Instruction::Drop => match stack.pop::<Value>() {
            Ok(_) => Some(Ok(())),
            Err(e) => Some(Err(e)),
        },
        Instruction::Select => Some(execute_select(stack)),
        Instruction::MemorySize => match memory {
            Some(m) => {
                stack.push(pages_as_value(m.page_size()));
                Some(Ok(()))
            },
            None => Some(Err(ExecutionError::NoMemory)),
        },
        Instruction::MemoryGrow => Some(execute_grow(stack, memory)),
        _ => None,
    }
}

} // verus!
