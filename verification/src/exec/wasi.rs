//! The host function `fd_write` of `wasi_snapshot_preview1`.
//!
//! The library decides what is written and where the result goes; the write
//! itself is the host's.  `fd_write` takes the arguments from the operand
//! stack and gathers the bytes, the host writes them, and `fd_write_done`
//! stores the count and pushes the error number.

use vstd::prelude::*;
use crate::exec::access::memory_view;
use crate::exec::error::{AddressRange, ExecutionError};
use crate::exec::control::InstanceView;
use crate::exec::instance::{end_host_call, unwind, Instance};
use crate::exec::properties::lemma_return_keeps_frames_valid;
use crate::exec::machine::{effected, Effect};
use crate::exec::memory::{checked_area, splice, MemObject, Memory, MemoryView};
use crate::exec::numeric::{i32_to_u32, u32_of};
use crate::exec::operand_stack::{pop_rest, typed_top, OperandStack};
use crate::exec::types::{
    ExternFunctionView,
    FunctionSignature,
    HostFunction,
    Identifier,
    IdentifierView,
    SignatureView,
    Value,
};
use crate::parse::types::Type;

verus! {

/// The error number for a file descriptor that names no stream of the host.
pub const ERRNO_BADF: i32 = 8;

/// What a module imports to call `fd_write`: the function `fd_write` of the
/// module `wasi_snapshot_preview1`, which takes four 32-bit numbers and gives
/// one.
pub open spec fn signature() -> ExternFunctionView {
    ExternFunctionView {
        name: IdentifierView { module: "wasi_snapshot_preview1"@, field: "fd_write"@ },
        signature: SignatureView {
            params: seq![Type::I32, Type::I32, Type::I32, Type::I32],
            results: seq![Type::I32],
        },
    }
}

/// The entry for `fd_write` in the host's list of functions.
pub fn host_function() -> (r: HostFunction)
    ensures
        r.deep_view() == signature(),
{
    let mut params: Vec<Type> = Vec::new();
    params.push(Type::I32);
    params.push(Type::I32);
    params.push(Type::I32);
    params.push(Type::I32);
    let mut results: Vec<Type> = Vec::new();
    results.push(Type::I32);
    let r = HostFunction {
        name: Identifier::new("wasi_snapshot_preview1", "fd_write"),
        signature: FunctionSignature { params, results },
    };
    assert(r.deep_view().signature.params =~= signature().signature.params);
    assert(r.deep_view().signature.results =~= signature().signature.results);
    r
}

/// A write that the host is asked to perform: the file descriptor, 1 for the
/// standard output and 2 for the standard error, the buffers to write in
/// order, and the address where the count of written bytes goes.
#[derive(Debug, PartialEq, Eq)]
pub struct FdWrite {
    pub fd: i32,
    pub buffers: Vec<Vec<u8>>,
    pub result_ptr: usize,
}

/// The model of an `FdWrite`.
pub struct FdWriteView {
    pub fd: i32,
    pub buffers: Seq<Seq<u8>>,
    pub result_ptr: usize,
}

impl DeepView for FdWrite {
    type V = FdWriteView;

    open spec fn deep_view(&self) -> FdWriteView {
        FdWriteView { fd: self.fd, buffers: self.buffers.deep_view(), result_ptr: self.result_ptr }
    }
}

/// The 32-bit number at `address`, least significant byte first.
pub open spec fn u32_at(data: Seq<u8>, address: int) -> Result<u32, ExecutionError> {
    match checked_area(address, 4, data.len()) {
        Ok(_) => Ok(u32::from_bytes(data.subrange(address, address + 4))),
        Err(e) => Err(e),
    }
}

/// The buffers that the entries from `i` on of the array of `count` entries
/// at `ptr` describe, appended to `acc`.  An entry takes eight bytes: the
/// address of the buffer and its length.
pub open spec fn gather(data: Seq<u8>, ptr: int, count: nat, i: nat, acc: Seq<Seq<u8>>) -> Result<
    Seq<Seq<u8>>,
    ExecutionError,
>
    decreases count - i,
{
    if i >= count {
        Ok(acc)
    } else {
        match u32_at(data, ptr + 8 * i) {
            Ok(address) => match u32_at(data, ptr + 8 * i + 4) {
                Ok(length) => match checked_area(address as int, length as int, data.len()) {
                    Ok(_) => gather(
                        data,
                        ptr,
                        count,
                        i + 1,
                        acc.push(data.subrange(address as int, address + length)),
                    ),
                    Err(e) => Err(e),
                },
                Err(e) => Err(e),
            },
            Err(e) => Err(e),
        }
    }
}

/// What `fd_write` has to do once its arguments are known: for a file
/// descriptor other than 1 and 2 nothing is written, the count 0 is stored
/// and `ERRNO_BADF` is pushed; else the buffers are gathered for the host.
pub open spec fn prepare(
    stack: Seq<Value>,
    memory: Option<MemoryView>,
    fd: i32,
    ptr: i32,
    count: i32,
    result_ptr: i32,
) -> (Effect, Option<FdWriteView>) {
    match memory {
        None => (Effect { stack, memory, result: Err(ExecutionError::NoMemory) }, None),
        Some(m) => if fd != 1 && fd != 2 {
            (finish(stack, memory, u32_of(result_ptr) as usize, Err(ERRNO_BADF)), None)
        } else {
            match gather(m.data, u32_of(ptr) as int, u32_of(count) as nat, 0, Seq::empty()) {
                Ok(buffers) => (
                    Effect { stack, memory, result: Ok(()) },
                    Some(FdWriteView { fd, buffers, result_ptr: u32_of(result_ptr) as usize }),
                ),
                Err(e) => (Effect { stack, memory, result: Err(e) }, None),
            }
        },
    }
}

/// What the first half of `fd_write` leaves behind, and the write that it
/// asks of the host.  It takes four 32-bit numbers from the stack: the
/// address for the result, the number of entries, the address of the array
/// and the file descriptor.
pub open spec fn request(
    stack: Seq<Value>,
    memory: Option<MemoryView>,
) -> (Effect, Option<FdWriteView>) {
    let s1 = pop_rest(stack);
    let s2 = pop_rest(s1);
    let s3 = pop_rest(s2);
    let s4 = pop_rest(s3);
    match typed_top(stack, Type::I32) {
        Ok(result_ptr) => match typed_top(s1, Type::I32) {
            Ok(count) => match typed_top(s2, Type::I32) {
                Ok(ptr) => match typed_top(s3, Type::I32) {
                    Ok(fd) => prepare(
                        s4,
                        memory,
                        fd->I32_0,
                        ptr->I32_0,
                        count->I32_0,
                        result_ptr->I32_0,
                    ),
                    Err(e) => (Effect { stack: s4, memory, result: Err(e) }, None),
                },
                Err(e) => (Effect { stack: s3, memory, result: Err(e) }, None),
            },
            Err(e) => (Effect { stack: s2, memory, result: Err(e) }, None),
        },
        Err(e) => (Effect { stack: s1, memory, result: Err(e) }, None),
    }
}

/// What the second half of `fd_write` leaves behind: the count of written
/// bytes at `result_ptr` and the error number 0 on the stack; after a failed
/// write, the count 0 and the error number of the failure.
pub open spec fn finish(
    stack: Seq<Value>,
    memory: Option<MemoryView>,
    result_ptr: usize,
    written: Result<u32, i32>,
) -> Effect {
    let (count, errno) = match written {
        Ok(count) => (count, 0i32),
        Err(errno) => (0u32, errno),
    };
    match memory {
        None => Effect { stack, memory, result: Err(ExecutionError::NoMemory) },
        Some(m) => match checked_area(result_ptr as int, 4, m.data.len()) {
            Ok(_) => Effect {
                stack: stack.push(Value::I32(errno)),
                memory: Some(m.with_data(splice(m.data, result_ptr as int, count.to_bytes()))),
                result: Ok(()),
            },
            Err(e) => Effect { stack, memory, result: Err(e) },
        },
    }
}

/// Gathers the buffers of an `fd_write`.
#[verifier::loop_isolation(false)]
pub fn gather_buffers(memory: &Memory, ptr: u32, count: u32) -> (r: Result<
    Vec<Vec<u8>>,
    ExecutionError,
>)
    ensures
        match gather(memory.data@, ptr as int, count as nat, 0, Seq::empty()) {
            Ok(buffers) => r is Ok && r->Ok_0.deep_view() == buffers,
            Err(e) => r == Err::<Vec<Vec<u8>>, ExecutionError>(e),
        },
{
    let mut buffers: Vec<Vec<u8>> = Vec::new();
    assert(buffers.deep_view() =~= Seq::empty());
    let size = memory.data.len();
    let mut i: u32 = 0;
    while i < count
        invariant
            i <= count,
            size == memory.data@.len(),
            gather(memory.data@, ptr as int, count as nat, 0, Seq::empty()) == gather(
                memory.data@,
                ptr as int,
                count as nat,
                i as nat,
                buffers.deep_view(),
            ),
        decreases count - i,
    {
        let entry: u64 = ptr as u64 + 8 * (i as u64);
        if entry + 4 > usize::MAX as u64 {
            return Err(
                ExecutionError::InvalidMemoryArea {
                    addr: AddressRange {
                        start: if entry > usize::MAX as u64 {
                            usize::MAX
                        } else {
                            entry as usize
                        },
                        end: usize::MAX,
                    },
                    size,
                },
            );
        }
        let address = memory.load::<u32>(entry as usize)?;
        let length = memory.load::<u32>((entry + 4) as usize)?;
        let start = memory.check_area(address as usize, 0, length as usize)?;
        let mut buffer: Vec<u8> = Vec::new();
        let mut j: usize = 0;
        while j < length as usize
            invariant
                j <= length,
                start + length <= size,
                buffer@ == memory.data@.subrange(start as int, start + j),
            decreases length - j,
        {
            buffer.push(memory.data[start + j]);
            j = j + 1;
            assert(buffer@ =~= memory.data@.subrange(start as int, start + j));
        }
        let ghost before = buffers.deep_view();
        assert(buffer.deep_view() =~= memory.data@.subrange(address as int, address + length));
        buffers.push(buffer);
        assert(buffers.deep_view() =~= before.push(
            memory.data@.subrange(address as int, address + length),
        ));
        i = i + 1;
    }
    Ok(buffers)
}

/// Stores the result of an `fd_write` and pushes its error number.
pub fn complete(
    stack: &mut OperandStack,
    memory: &mut Option<Memory>,
    result_ptr: usize,
    written: Result<u32, i32>,
) -> (r: Result<(), ExecutionError>)
    requires
        *old(memory) matches Some(m) ==> m.wf(),
    ensures
        *final(memory) matches Some(m) ==> m.wf(),
        effected(
            final(stack)@,
            memory_view(*final(memory)),
            r,
            finish(old(stack)@, memory_view(*old(memory)), result_ptr, written),
        ),
{
    let (count, errno): (u32, i32) = match written {
        Ok(count) => (count, 0),
        Err(errno) => (0, errno),
    };
    match memory {
        None => Err(ExecutionError::NoMemory),
        Some(m) => match m.store::<u32>(&count, result_ptr) {
            Ok(()) => {
                stack.push(Value::I32(errno));
                Ok(())
            },
            Err(e) => Err(e),
        },
    }
}

/// Takes the arguments of an `fd_write` from the operand stack and gathers
/// the bytes to write.
pub fn prepare_write(stack: &mut OperandStack, memory: &mut Option<Memory>) -> (r: Result<
    Option<FdWrite>,
    ExecutionError,
>)
    requires
        *old(memory) matches Some(m) ==> m.wf(),
    ensures
        *final(memory) matches Some(m) ==> m.wf(),
        ({
            let (effect, write) = request(old(stack)@, memory_view(*old(memory)));
            &&& final(stack)@ == effect.stack
            &&& memory_view(*final(memory)) == effect.memory
            &&& match effect.result {
                Ok(_) => r is Ok && r->Ok_0.deep_view() == write,
                Err(e) => r == Err::<Option<FdWrite>, ExecutionError>(e),
            }
        }),
{
    let result_ptr = stack.pop::<i32>()?;
    let count = stack.pop::<i32>()?;
    let ptr = stack.pop::<i32>()?;
    let fd = stack.pop::<i32>()?;
    let result_ptr = i32_to_u32(result_ptr) as usize;
    if memory.is_none() {
        return Err(ExecutionError::NoMemory);
    }
    if fd != 1 && fd != 2 {
        return match complete(stack, memory, result_ptr, Err(ERRNO_BADF)) {
            Ok(()) => Ok(None),
            Err(e) => Err(e),
        };
    }
    match memory {
        Some(m) => match gather_buffers(m, i32_to_u32(ptr), i32_to_u32(count)) {
            Ok(buffers) => Ok(Some(FdWrite { fd, buffers, result_ptr })),
            Err(e) => Err(e),
        },
        None => Err(ExecutionError::NoMemory),
    }
}

/// The instance `m` after the first half of `fd_write`, and the write that
/// it asks of the host.  Where the host has a write to perform, the call
/// stays on the call stack; where the call is done without the host, it ends;
/// an error is a trap and unwinds the call stack.
pub open spec fn begun(m: InstanceView) -> (InstanceView, Result<Option<FdWriteView>, ExecutionError>) {
    let (effect, write) = request(m.stack, m.memory);
    let after = InstanceView { stack: effect.stack, memory: effect.memory, ..m };
    match effect.result {
        Ok(_) => match write {
            Some(_) => (after, Ok(write)),
            None => (after.host_returned(), Ok(None)),
        },
        Err(e) => (m.unwound(effect.stack, effect.memory), Err(e)),
    }
}

/// The instance `m` after the second half of `fd_write`: the result is stored
/// and the call ends; an error is a trap and unwinds the call stack.
pub open spec fn done(m: InstanceView, result_ptr: usize, written: Result<u32, i32>) -> (
    InstanceView,
    Result<(), ExecutionError>,
) {
    let effect = finish(m.stack, m.memory, result_ptr, written);
    match effect.result {
        Ok(_) => (
            InstanceView { stack: effect.stack, memory: effect.memory, ..m }.host_returned(),
            Ok(()),
        ),
        Err(e) => (m.unwound(effect.stack, effect.memory), Err(e)),
    }
}

/// The first half of `fd_write`: takes the arguments from the operand stack
/// and gathers the bytes to write.  Returns the write that the host is to
/// perform, or `None` where the call is already done because the file
/// descriptor names no stream.  The call of `fd_write` stays on the call
/// stack while the host has a write to perform.  An error is a trap.
pub fn fd_write(instance: &mut Instance) -> (r: Result<Option<FdWrite>, ExecutionError>)
    requires
        old(instance).wf(),
    ensures
        final(instance).wf(),
        final(instance).functions == old(instance).functions,
        final(instance)@ == begun(old(instance)@).0,
        match begun(old(instance)@).1 {
            Ok(write) => r is Ok && r->Ok_0.deep_view() == write,
            Err(e) => r == Err::<Option<FdWrite>, ExecutionError>(e),
        },
{
    proof {
        lemma_return_keeps_frames_valid(instance@.functions, instance@.frames);
    }
    let r = prepare_write(&mut instance.operand_stack, &mut instance.memory);
    match &r {
        Ok(Some(_)) => {},
        Ok(None) => {
            end_host_call(&instance.functions, &mut instance.call_stack);
        },
        Err(_) => {
            unwind(&mut instance.call_stack);
        },
    }
    assert(instance@.functions == old(instance)@.functions);
    r
}

/// The second half of `fd_write`: stores the number of bytes that the host
/// wrote at `result_ptr` and pushes the error number 0; after a failed write,
/// stores 0 and pushes the error number of the failure.  The call of
/// `fd_write` then ends: its frame leaves the call stack.  An error is a
/// trap.
pub fn fd_write_done(instance: &mut Instance, result_ptr: usize, written: Result<u32, i32>) -> (r:
    Result<(), ExecutionError>)
    requires
        old(instance).wf(),
    ensures
        final(instance).wf(),
        final(instance).functions == old(instance).functions,
        (final(instance)@, r) == done(old(instance)@, result_ptr, written),
{
    proof {
        lemma_return_keeps_frames_valid(instance@.functions, instance@.frames);
    }
    let r = complete(&mut instance.operand_stack, &mut instance.memory, result_ptr, written);
    match &r {
        Ok(()) => {
            end_host_call(&instance.functions, &mut instance.call_stack);
        },
        Err(_) => {
            unwind(&mut instance.call_stack);
        },
    }
    assert(instance@.functions == old(instance)@.functions);
    r
}

} // verus!
