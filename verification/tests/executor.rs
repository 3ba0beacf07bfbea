use rust_wasm_runtime::exec::arithmetic::Shape;
use rust_wasm_runtime::exec::control::{Level, Outcome};
use rust_wasm_runtime::exec::instance::{Frame, Instance};
use rust_wasm_runtime::exec::wasi::{fd_write, fd_write_done, host_function, FdWrite, ERRNO_BADF};
use rust_wasm_runtime::exec::{
    AddressRange, Callable, ExecutionError, FunctionSignature, Functions, HostFunction, Identifier,
    Instruction, MemArg, Value, WasmFunction,
};
use rust_wasm_runtime::parse::{DataSegment, MemoryBlueprint, Module, Opcode, PageLimit, Type};

const FUEL: u64 = 10_000;

fn function(index: usize, export_name: Option<&str>, body: Vec<Instruction>) -> WasmFunction {
    WasmFunction {
        index,
        export_name: export_name.map(|name| name.to_owned()),
        signature: FunctionSignature::default(),
        locals: vec![],
        body,
    }
}

fn one_page() -> Option<MemoryBlueprint> {
    Some(MemoryBlueprint {
        page_limit: PageLimit { start: 1, end: 2 },
        export_name: None,
        init: vec![],
    })
}

fn instance_of(body: Vec<Instruction>, memory: Option<MemoryBlueprint>) -> Instance {
    let module = Module {
        functions: Functions { imports: vec![], wasm: vec![function(0, Some("_start"), body)] },
        memory_blueprint: memory,
    };
    Instance::new(module, &vec![]).unwrap()
}

fn run_body(body: Vec<Instruction>) -> (Outcome, Vec<Value>) {
    let mut instance = instance_of(body, one_page());
    let outcome = instance.start(FUEL);
    (outcome, instance.operand_stack().clone())
}

fn result_of(body: Vec<Instruction>) -> Vec<Value> {
    let (outcome, stack) = run_body(body);
    assert_eq!(outcome, Outcome::Finished);
    stack
}

fn trap_of(body: Vec<Instruction>) -> ExecutionError {
    match run_body(body).0 {
        Outcome::Trapped(e) => e,
        other => panic!("no trap: {:?}", other),
    }
}

fn i32_binary(op: Instruction, x: i32, y: i32) -> Vec<Value> {
    result_of(vec![Instruction::I32Const(x), Instruction::I32Const(y), op])
}

fn i64_binary(op: Instruction, x: i64, y: i64) -> Vec<Value> {
    result_of(vec![Instruction::I64Const(x), Instruction::I64Const(y), op])
}

fn memarg(offset: usize) -> MemArg {
    MemArg { align: 0, offset }
}

#[test]
fn minimum_module_has_no_start() {
    let module = Module::new(&[0x00, 0x61, 0x73, 0x6D, 0x01, 0x00, 0x00, 0x00]).unwrap();
    let mut instance = Instance::new(module, &vec![]).unwrap();
    assert_eq!(instance.start(FUEL), Outcome::Trapped(ExecutionError::NoStart));
    assert_eq!(instance.exec_start(), Err(ExecutionError::NoStart));
    assert!(instance.operand_stack().is_empty());
    assert!(instance.memory().is_none());
}

#[test]
fn constant_store() {
    let bytes = [
        0x00, 0x61, 0x73, 0x6D, 0x01, 0x00, 0x00, 0x00, // header
        0x01, 0x04, 0x01, 0x60, 0x00, 0x00, // type
        0x03, 0x02, 0x01, 0x00, // function
        0x05, 0x03, 0x01, 0x00, 0x01, // memory
        0x07, 0x0A, 0x01, 0x06, b'_', b's', b't', b'a', b'r', b't', 0x00, 0x00, // export
        0x0A, 0x0B, 0x01, 0x09, 0x00, 0x41, 0x00, 0x41, 0xC1, 0x00, 0x36, 0x00, 0x00, 0x0B, // code
    ];
    let mut instance = Instance::new(Module::new(&bytes).unwrap(), &vec![]).unwrap();
    assert_eq!(instance.start(FUEL), Outcome::Finished);
    let memory = instance.memory().as_ref().unwrap();
    assert_eq!(memory.data()[0..4], [0x41, 0x00, 0x00, 0x00]);
    assert_eq!(memory.data().len(), 4096);
    assert_eq!(memory.page_size(), 1);
    assert!(memory.data()[4..].iter().all(|b| *b == 0));
    assert!(instance.operand_stack().is_empty());
}

#[test]
fn arithmetic() {
    assert_eq!(
        result_of(vec![Instruction::I32Const(5), Instruction::I32Const(7), Instruction::I32Add]),
        vec![Value::I32(12)]
    );
}

#[test]
fn division_trap() {
    assert_eq!(
        trap_of(vec![
            Instruction::I32Const(0x80000000u32 as i32),
            Instruction::I32Const(-1),
            Instruction::I32DivS,
        ]),
        ExecutionError::IntegerOverflow
    );
    assert_eq!(
        trap_of(vec![Instruction::I32Const(1), Instruction::I32Const(0), Instruction::I32DivS]),
        ExecutionError::DivideByZero
    );
}

#[test]
fn trap_leaves_stack_and_memory() {
    let mut instance = instance_of(
        vec![
            Instruction::I32Const(9),
            Instruction::I32Const(0),
            Instruction::I32Const(0x0102),
            Instruction::I32Store16(memarg(4)),
            Instruction::I32Const(1),
            Instruction::I32Const(0),
            Instruction::I32DivU,
            Instruction::I32Const(77),
        ],
        one_page(),
    );
    assert_eq!(instance.start(FUEL), Outcome::Trapped(ExecutionError::DivideByZero));
    assert_eq!(instance.operand_stack(), &vec![Value::I32(9)]);
    assert_eq!(instance.memory().as_ref().unwrap().data()[4..6], [0x02, 0x01]);
    assert!(instance.call_stack.is_empty());
    assert_eq!(instance.step(), Outcome::Finished);
    assert_eq!(instance.run(FUEL), Outcome::Finished);
}

#[test]
fn fd_write_echo() {
    let mut bytes = vec![0x00, 0x61, 0x73, 0x6D, 0x01, 0x00, 0x00, 0x00];
    bytes.extend_from_slice(&[
        0x01, 0x0C, 0x02, 0x60, 0x04, 0x7F, 0x7F, 0x7F, 0x7F, 0x01, 0x7F, 0x60, 0x00, 0x00,
    ]);
    bytes.extend_from_slice(&[0x02, 0x23, 0x01, 0x16]);
    bytes.extend_from_slice(b"wasi_snapshot_preview1");
    bytes.push(0x08);
    bytes.extend_from_slice(b"fd_write");
    bytes.extend_from_slice(&[0x00, 0x00]);
    bytes.extend_from_slice(&[0x03, 0x02, 0x01, 0x01]);
    bytes.extend_from_slice(&[0x05, 0x03, 0x01, 0x00, 0x01]);
    bytes.extend_from_slice(&[0x07, 0x0A, 0x01, 0x06, b'_', b's', b't', b'a', b'r', b't', 0x00, 0x01]);
    bytes.extend_from_slice(&[
        0x0A, 0x0F, 0x01, 0x0D, 0x00, 0x41, 0x01, 0x41, 0x00, 0x41, 0x01, 0x41, 0x10, 0x10, 0x00,
        0x1A, 0x0B,
    ]);
    bytes.extend_from_slice(&[
        0x0B, 0x16, 0x02, 0x00, 0x41, 0x00, 0x0B, 0x08, 0x08, 0x00, 0x00, 0x00, 0x03, 0x00, 0x00,
        0x00, 0x00, 0x41, 0x08, 0x0B, 0x03, b'H', b'i', b'\n',
    ]);
    let module = Module::new(&bytes).unwrap();
    let host = vec![host_function()];
    assert_eq!(
        host[0],
        HostFunction {
            name: Identifier::new("wasi_snapshot_preview1", "fd_write"),
            signature: FunctionSignature {
                params: vec![Type::I32, Type::I32, Type::I32, Type::I32],
                results: vec![Type::I32],
            },
        }
    );
    assert_eq!(host[0].name.to_text(), "wasi_snapshot_preview1.fd_write");
    assert_eq!(Identifier::new("", "print").to_text(), "print");
    let mut instance = Instance::new(module, &host).unwrap();
    assert!(instance.is_well_formed());
    assert_eq!(
        instance.functions[0],
        Callable::HostFunction {
            name: Identifier::new("wasi_snapshot_preview1", "fd_write"),
            function: 0
        }
    );
    assert_eq!(instance.start(FUEL), Outcome::HostCall { function: 0 });
    let during = vec![
        Frame { function_index: 1, levels: vec![], pc: 5 },
        Frame { function_index: 0, levels: vec![], pc: 0 },
    ];
    assert_eq!(instance.call_stack, during);
    assert_eq!(instance.run(FUEL), Outcome::HostCall { function: 0 });
    assert_eq!(instance.call_stack, during);
    assert!(instance.is_well_formed());
    let mut output: Vec<u8> = Vec::new();
    let write = fd_write(&mut instance).unwrap().unwrap();
    assert_eq!(write, FdWrite { fd: 1, buffers: vec![b"Hi\n".to_vec()], result_ptr: 16 });
    assert_eq!(instance.call_stack, during);
    for buffer in &write.buffers {
        output.extend_from_slice(buffer);
    }
    assert_eq!(fd_write_done(&mut instance, write.result_ptr, Ok(output.len() as u32)), Ok(()));
    assert_eq!(instance.call_stack, vec![Frame { function_index: 1, levels: vec![], pc: 5 }]);
    assert_eq!(instance.operand_stack(), &vec![Value::I32(0)]);
    assert_eq!(instance.run(FUEL), Outcome::Finished);
    assert_eq!(output, b"Hi\n");
    assert_eq!(instance.memory().as_ref().unwrap().data()[16..20], [3, 0, 0, 0]);
    assert!(instance.operand_stack().is_empty());
}

#[test]
fn fd_write_failure_pushes_errno() {
    let mut instance = instance_of(vec![], one_page());
    for value in [1, 0, 0, 16] {
        instance.operand_stack.push(Value::I32(value));
    }
    let write = fd_write(&mut instance).unwrap().unwrap();
    assert_eq!(write, FdWrite { fd: 1, buffers: vec![], result_ptr: 16 });
    instance.memory.as_mut().unwrap().write::<u32>(&0xFFFF_FFFF, 16);
    assert_eq!(fd_write_done(&mut instance, 16, Err(32)), Ok(()));
    assert_eq!(instance.operand_stack(), &vec![Value::I32(32)]);
    assert_eq!(instance.memory().as_ref().unwrap().data()[16..20], [0, 0, 0, 0]);
}

#[test]
fn fd_write_to_unknown_descriptor() {
    let mut instance = instance_of(vec![], one_page());
    for value in [7, 0, 1, 16] {
        instance.operand_stack.push(Value::I32(value));
    }
    assert_eq!(fd_write(&mut instance), Ok(None));
    assert_eq!(instance.operand_stack(), &vec![Value::I32(ERRNO_BADF)]);
    assert_eq!(ERRNO_BADF, 8);
}

#[test]
fn fd_write_gathers_in_order() {
    let mut instance = instance_of(vec![], one_page());
    {
        let memory = instance.memory.as_mut().unwrap();
        memory.write::<u32>(&100, 32);
        memory.write::<u32>(&2, 36);
        memory.write::<u32>(&200, 40);
        memory.write::<u32>(&3, 44);
        memory.write::<u16>(&0x6261, 100);
        memory.write::<u32>(&0x00656463, 200);
    }
    for value in [2, 32, 2, 0] {
        instance.operand_stack.push(Value::I32(value));
    }
    assert_eq!(
        fd_write(&mut instance),
        Ok(Some(FdWrite { fd: 2, buffers: vec![b"ab".to_vec(), b"cde".to_vec()], result_ptr: 0 }))
    );
    assert!(instance.operand_stack().is_empty());
}

#[test]
fn fd_write_traps() {
    let mut instance = instance_of(vec![], one_page());
    for value in [1, 4092, 1] {
        instance.operand_stack.push(Value::I32(value));
    }
    assert_eq!(fd_write(&mut instance), Err(ExecutionError::PopOnEmptyOperandStack));
    for value in [1, 4092, 1, 0] {
        instance.operand_stack.push(Value::I32(value));
    }
    assert_eq!(
        fd_write(&mut instance),
        Err(ExecutionError::InvalidMemoryArea {
            addr: AddressRange { start: 4096, end: 4100 },
            size: 4096
        })
    );
    let mut without = instance_of(vec![], None);
    for value in [1, 0, 0, 0] {
        without.operand_stack.push(Value::I32(value));
    }
    assert_eq!(fd_write(&mut without), Err(ExecutionError::NoMemory));
    assert_eq!(fd_write_done(&mut without, 0, Ok(0)), Err(ExecutionError::NoMemory));
    assert_eq!(
        fd_write_done(&mut instance, 4094, Ok(0)),
        Err(ExecutionError::InvalidMemoryArea {
            addr: AddressRange { start: 4094, end: 4098 },
            size: 4096
        })
    );
}

#[test]
fn store_beyond_the_end_traps() {
    let mut instance = instance_of(
        vec![
            Instruction::I32Const(4096 - 3),
            Instruction::I32Const(1),
            Instruction::I32Store(memarg(0)),
        ],
        one_page(),
    );
    assert_eq!(
        instance.start(FUEL),
        Outcome::Trapped(ExecutionError::InvalidMemoryArea {
            addr: AddressRange { start: 4093, end: 4097 },
            size: 4096
        })
    );
    assert!(instance.memory().as_ref().unwrap().data().iter().all(|b| *b == 0));
    assert!(instance.operand_stack().is_empty());
    assert_eq!(
        result_of(vec![
            Instruction::I32Const(4096 - 4),
            Instruction::I32Const(1),
            Instruction::I32Store(memarg(0)),
        ]),
        vec![]
    );
    assert_eq!(
        trap_of(vec![
            Instruction::I32Const(-1),
            Instruction::I32Const(1),
            Instruction::I32Store8(memarg(1)),
        ]),
        ExecutionError::InvalidMemoryArea {
            addr: AddressRange { start: 0x1_0000_0000, end: 0x1_0000_0001 },
            size: 4096
        }
    );
}

#[test]
fn memory_instruction_without_memory_traps() {
    let mut instance = instance_of(
        vec![Instruction::I32Const(0), Instruction::I32Load(memarg(0))],
        None,
    );
    assert_eq!(instance.start(FUEL), Outcome::Trapped(ExecutionError::NoMemory));
    let mut instance = instance_of(vec![Instruction::MemorySize], None);
    assert_eq!(instance.start(FUEL), Outcome::Trapped(ExecutionError::NoMemory));
}

#[test]
fn eqz() {
    assert_eq!(
        result_of(vec![Instruction::I32Const(0), Instruction::I32Eqz]),
        vec![Value::I32(1)]
    );
    assert_eq!(
        result_of(vec![Instruction::I32Const(5), Instruction::I32Eqz]),
        vec![Value::I32(0)]
    );
    assert_eq!(
        result_of(vec![Instruction::I32Const(-1), Instruction::I32Eqz]),
        vec![Value::I32(0)]
    );
    assert_eq!(
        result_of(vec![Instruction::I64Const(0), Instruction::I64Eqz]),
        vec![Value::I32(1)]
    );
}

#[test]
fn i32_arithmetic_values() {
    assert_eq!(i32_binary(Instruction::I32Sub, 5, 7), vec![Value::I32(-2)]);
    assert_eq!(i32_binary(Instruction::I32Add, i32::MAX, 1), vec![Value::I32(i32::MIN)]);
    assert_eq!(i32_binary(Instruction::I32Sub, i32::MIN, 1), vec![Value::I32(i32::MAX)]);
    assert_eq!(i32_binary(Instruction::I32Mul, 0x10000, 0x10000), vec![Value::I32(0)]);
    assert_eq!(i32_binary(Instruction::I32Mul, -3, 7), vec![Value::I32(-21)]);
    assert_eq!(i32_binary(Instruction::I32DivS, -7, 2), vec![Value::I32(-3)]);
    assert_eq!(i32_binary(Instruction::I32DivS, 7, -2), vec![Value::I32(-3)]);
    assert_eq!(i32_binary(Instruction::I32DivS, i32::MIN, 1), vec![Value::I32(i32::MIN)]);
    assert_eq!(i32_binary(Instruction::I32DivU, -7, 2), vec![Value::I32(0x7FFF_FFFC)]);
    assert_eq!(i32_binary(Instruction::I32RemS, -7, 2), vec![Value::I32(-1)]);
    assert_eq!(i32_binary(Instruction::I32RemS, 7, -2), vec![Value::I32(1)]);
    assert_eq!(i32_binary(Instruction::I32RemS, i32::MIN, -1), vec![Value::I32(0)]);
    assert_eq!(i32_binary(Instruction::I32RemU, -7, 4), vec![Value::I32(1)]);
    assert_eq!(i32_binary(Instruction::I32And, 0b1100, 0b1010), vec![Value::I32(0b1000)]);
    assert_eq!(i32_binary(Instruction::I32Or, 0b1100, 0b1010), vec![Value::I32(0b1110)]);
    assert_eq!(i32_binary(Instruction::I32Xor, 0b1100, 0b1010), vec![Value::I32(0b0110)]);
    assert_eq!(i32_binary(Instruction::I32Shl, 1, 33), vec![Value::I32(2)]);
    assert_eq!(i32_binary(Instruction::I32Shl, 1, 31), vec![Value::I32(i32::MIN)]);
    assert_eq!(i32_binary(Instruction::I32ShrS, -8, 1), vec![Value::I32(-4)]);
    assert_eq!(i32_binary(Instruction::I32ShrS, -8, 33), vec![Value::I32(-4)]);
    assert_eq!(i32_binary(Instruction::I32ShrU, -8, 1), vec![Value::I32(0x7FFF_FFFC)]);
    assert_eq!(i32_binary(Instruction::I32ShrU, -8, -31), vec![Value::I32(0x7FFF_FFFC)]);
    assert_eq!(i32_binary(Instruction::I32Rotl, 0x4000_0001, 1), vec![Value::I32(0x8000_0002u32 as i32)]);
    assert_eq!(i32_binary(Instruction::I32Rotl, 0x1234_5678, 32), vec![Value::I32(0x1234_5678)]);
    assert_eq!(i32_binary(Instruction::I32Rotr, 0x1234_5678, 36), vec![Value::I32(0x8123_4567u32 as i32)]);
    assert_eq!(i32_binary(Instruction::I32Rotr, 1, 1), vec![Value::I32(i32::MIN)]);
}

#[test]
fn i32_comparisons() {
    assert_eq!(i32_binary(Instruction::I32Eq, 3, 3), vec![Value::I32(1)]);
    assert_eq!(i32_binary(Instruction::I32Ne, 3, 3), vec![Value::I32(0)]);
    assert_eq!(i32_binary(Instruction::I32LtS, -1, 1), vec![Value::I32(1)]);
    assert_eq!(i32_binary(Instruction::I32LtU, -1, 1), vec![Value::I32(0)]);
    assert_eq!(i32_binary(Instruction::I32GtS, -1, 1), vec![Value::I32(0)]);
    assert_eq!(i32_binary(Instruction::I32GtU, -1, 1), vec![Value::I32(1)]);
    assert_eq!(i32_binary(Instruction::I32LeS, 2, 2), vec![Value::I32(1)]);
    assert_eq!(i32_binary(Instruction::I32LeU, 1, -1), vec![Value::I32(1)]);
    assert_eq!(i32_binary(Instruction::I32GeS, 1, 2), vec![Value::I32(0)]);
    assert_eq!(i32_binary(Instruction::I32GeU, -1, 2), vec![Value::I32(1)]);
}

#[test]
fn i32_bit_counts() {
    let unary = |op: Instruction, x: i32| result_of(vec![Instruction::I32Const(x), op]);
    assert_eq!(unary(Instruction::I32Clz, 0), vec![Value::I32(32)]);
    assert_eq!(unary(Instruction::I32Clz, 1), vec![Value::I32(31)]);
    assert_eq!(unary(Instruction::I32Clz, -1), vec![Value::I32(0)]);
    assert_eq!(unary(Instruction::I32Ctz, 0), vec![Value::I32(32)]);
    assert_eq!(unary(Instruction::I32Ctz, 8), vec![Value::I32(3)]);
    assert_eq!(unary(Instruction::I32Ctz, i32::MIN), vec![Value::I32(31)]);
    assert_eq!(unary(Instruction::I32Popcnt, 0), vec![Value::I32(0)]);
    assert_eq!(unary(Instruction::I32Popcnt, -1), vec![Value::I32(32)]);
    assert_eq!(unary(Instruction::I32Popcnt, 0x0F0F), vec![Value::I32(8)]);
    assert_eq!(unary(Instruction::I32Extend8S, 0x180), vec![Value::I32(-128)]);
    assert_eq!(unary(Instruction::I32Extend8S, 0x17F), vec![Value::I32(127)]);
    assert_eq!(unary(Instruction::I32Extend16S, 0x1_8000), vec![Value::I32(-32768)]);
}

#[test]
fn i64_arithmetic_values() {
    assert_eq!(i64_binary(Instruction::I64Add, i64::MAX, 1), vec![Value::I64(i64::MIN)]);
    assert_eq!(i64_binary(Instruction::I64Sub, 5, 7), vec![Value::I64(-2)]);
    assert_eq!(i64_binary(Instruction::I64Mul, 1 << 32, 1 << 32), vec![Value::I64(0)]);
    assert_eq!(i64_binary(Instruction::I64DivS, -7, 2), vec![Value::I64(-3)]);
    assert_eq!(i64_binary(Instruction::I64DivU, -1, 2), vec![Value::I64(i64::MAX)]);
    assert_eq!(i64_binary(Instruction::I64RemS, -7, 2), vec![Value::I64(-1)]);
    assert_eq!(i64_binary(Instruction::I64RemS, i64::MIN, -1), vec![Value::I64(0)]);
    assert_eq!(i64_binary(Instruction::I64RemU, -1, 10), vec![Value::I64(5)]);
    assert_eq!(i64_binary(Instruction::I64And, 12, 10), vec![Value::I64(8)]);
    assert_eq!(i64_binary(Instruction::I64Or, 12, 10), vec![Value::I64(14)]);
    assert_eq!(i64_binary(Instruction::I64Xor, 12, 10), vec![Value::I64(6)]);
    assert_eq!(i64_binary(Instruction::I64Shl, 1, 65), vec![Value::I64(2)]);
    assert_eq!(i64_binary(Instruction::I64ShrS, -8, 1), vec![Value::I64(-4)]);
    assert_eq!(i64_binary(Instruction::I64ShrU, -8, 1), vec![Value::I64(0x7FFF_FFFF_FFFF_FFFC)]);
    assert_eq!(i64_binary(Instruction::I64Rotl, i64::MIN, 1), vec![Value::I64(1)]);
    assert_eq!(i64_binary(Instruction::I64Rotr, 1, 65), vec![Value::I64(i64::MIN)]);
    assert_eq!(i64_binary(Instruction::I64LtU, -1, 1), vec![Value::I32(0)]);
    assert_eq!(i64_binary(Instruction::I64LtS, -1, 1), vec![Value::I32(1)]);
    assert_eq!(i64_binary(Instruction::I64GeU, -1, 1), vec![Value::I32(1)]);
    assert_eq!(i64_binary(Instruction::I64Eq, 4, 4), vec![Value::I32(1)]);
    let unary = |op: Instruction, x: i64| result_of(vec![Instruction::I64Const(x), op]);
    assert_eq!(unary(Instruction::I64Clz, 1), vec![Value::I64(63)]);
    assert_eq!(unary(Instruction::I64Ctz, 0), vec![Value::I64(64)]);
    assert_eq!(unary(Instruction::I64Popcnt, -1), vec![Value::I64(64)]);
    assert_eq!(unary(Instruction::I64Extend8S, 0xFF), vec![Value::I64(-1)]);
    assert_eq!(unary(Instruction::I64Extend16S, 0x7FFF), vec![Value::I64(0x7FFF)]);
    assert_eq!(unary(Instruction::I64Extend32S, 0x8000_0000), vec![Value::I64(-0x8000_0000)]);
    assert_eq!(unary(Instruction::I32WrapI64, 0x1_8000_0001), vec![Value::I32(-0x7FFF_FFFF)]);
    assert_eq!(
        trap_of(vec![Instruction::I64Const(i64::MIN), Instruction::I64Const(-1), Instruction::I64DivS]),
        ExecutionError::IntegerOverflow
    );
    assert_eq!(
        trap_of(vec![Instruction::I64Const(1), Instruction::I64Const(0), Instruction::I64RemU]),
        ExecutionError::DivideByZero
    );
}

#[test]
fn conversions_and_constants() {
    let unary = |first: Instruction, op: Instruction| result_of(vec![first, op]);
    assert_eq!(unary(Instruction::I32Const(-1), Instruction::I64ExtendI32S), vec![Value::I64(-1)]);
    assert_eq!(
        unary(Instruction::I32Const(-1), Instruction::I64ExtendI32U),
        vec![Value::I64(0xFFFF_FFFF)]
    );
    assert_eq!(
        unary(Instruction::I32Const(-1), Instruction::F32ReinterpretI32),
        vec![Value::F32(0xFFFF_FFFF)]
    );
    assert_eq!(
        unary(Instruction::F32Const(0x8000_0000), Instruction::I32ReinterpretF32),
        vec![Value::I32(i32::MIN)]
    );
    assert_eq!(
        unary(Instruction::I64Const(-2), Instruction::F64ReinterpretI64),
        vec![Value::F64(0xFFFF_FFFF_FFFF_FFFE)]
    );
    assert_eq!(
        unary(Instruction::F64Const(1.5f64.to_bits()), Instruction::I64ReinterpretF64),
        vec![Value::I64(1.5f64.to_bits() as i64)]
    );
    assert_eq!(
        result_of(vec![Instruction::F32Const(2.5f32.to_bits())]),
        vec![Value::F32(2.5f32.to_bits())]
    );
}

#[test]
fn loads_and_stores() {
    let body = vec![
        Instruction::I32Const(0),
        Instruction::I64Const(0x8877_6655_4433_2211u64 as i64),
        Instruction::I64Store(memarg(8)),
        Instruction::I32Const(8),
        Instruction::I32Load(memarg(0)),
        Instruction::I32Const(8),
        Instruction::I32Load8u(memarg(7)),
        Instruction::I32Const(8),
        Instruction::I32Load8s(memarg(7)),
        Instruction::I32Const(8),
        Instruction::I32Load16u(memarg(6)),
        Instruction::I32Const(8),
        Instruction::I32Load16s(memarg(6)),
        Instruction::I32Const(8),
        Instruction::I64Load(memarg(0)),
        Instruction::I32Const(8),
        Instruction::I64Load8u(memarg(7)),
        Instruction::I32Const(8),
        Instruction::I64Load8s(memarg(7)),
        Instruction::I32Const(8),
        Instruction::I64Load16u(memarg(6)),
        Instruction::I32Const(8),
        Instruction::I64Load16s(memarg(6)),
        Instruction::I32Const(8),
        Instruction::I64Load32u(memarg(4)),
        Instruction::I32Const(8),
        Instruction::I64Load32s(memarg(4)),
        Instruction::I32Const(8),
        Instruction::F32Load(memarg(0)),
        Instruction::I32Const(8),
        Instruction::F64Load(memarg(0)),
    ];
    assert_eq!(
        result_of(body),
        vec![
            Value::I32(0x4433_2211),
            Value::I32(0x88),
            Value::I32(-0x78),
            Value::I32(0x8877),
            Value::I32(-0x7789),
            Value::I64(0x8877_6655_4433_2211u64 as i64),
            Value::I64(0x88),
            Value::I64(-0x78),
            Value::I64(0x8877),
            Value::I64(-0x7789),
            Value::I64(0x8877_6655),
            Value::I64(-0x7788_99AB),
            Value::F32(0x4433_2211),
            Value::F64(0x8877_6655_4433_2211),
        ]
    );
}

#[test]
fn narrow_stores() {
    let mut instance = instance_of(
        vec![
            Instruction::I32Const(0),
            Instruction::I32Const(0x1234_5678),
            Instruction::I32Store8(memarg(0)),
            Instruction::I32Const(0),
            Instruction::I32Const(0x1234_5678),
            Instruction::I32Store16(memarg(2)),
            Instruction::I32Const(0),
            Instruction::I64Const(0x0102_0304_0506_0708),
            Instruction::I64Store8(memarg(4)),
            Instruction::I32Const(0),
            Instruction::I64Const(0x0102_0304_0506_0708),
            Instruction::I64Store16(memarg(6)),
            Instruction::I32Const(0),
            Instruction::I64Const(0x0102_0304_0506_0708),
            Instruction::I64Store32(memarg(8)),
            Instruction::I32Const(0),
            Instruction::F32Const(0xAABB_CCDD),
            Instruction::F32Store(memarg(12)),
            Instruction::I32Const(16),
            Instruction::F64Const(0x1122_3344_5566_7788),
            Instruction::F64Store(memarg(0)),
        ],
        one_page(),
    );
    assert_eq!(instance.start(FUEL), Outcome::Finished);
    assert_eq!(
        instance.memory().as_ref().unwrap().data()[0..24],
        [
            0x78, 0, 0x78, 0x56, 0x08, 0, 0x08, 0x07, 0x08, 0x07, 0x06, 0x05, 0xDD, 0xCC, 0xBB,
            0xAA, 0x88, 0x77, 0x66, 0x55, 0x44, 0x33, 0x22, 0x11
        ]
    );
}

#[test]
fn memory_size_and_grow() {
    let mut instance = instance_of(
        vec![
            Instruction::MemorySize,
            Instruction::I32Const(1),
            Instruction::MemoryGrow,
            Instruction::MemorySize,
            Instruction::I32Const(1),
            Instruction::MemoryGrow,
        ],
        one_page(),
    );
    assert_eq!(
        instance.start(FUEL),
        Outcome::Trapped(ExecutionError::MemoryLimitExceeded { pages: 3, limit: 2 })
    );
    assert_eq!(instance.operand_stack(), &vec![Value::I32(1), Value::I32(1), Value::I32(2)]);
    let memory = instance.memory().as_ref().unwrap();
    assert_eq!(memory.page_size(), 2);
    assert_eq!(memory.data().len(), 8192);
}

#[test]
fn control_flow() {
    let body = vec![
        Instruction::Nop,
        Instruction::Block {
            block_type: 0x40,
            body: vec![
                Instruction::I32Const(1),
                Instruction::Loop { block_type: 0x40, body: vec![Instruction::I32Const(2)] },
                Instruction::I32Const(3),
            ],
        },
        Instruction::I32Const(1),
        Instruction::If {
            block_type: 0x40,
            then_body: vec![Instruction::I32Const(10)],
            else_body: vec![Instruction::I32Const(20)],
        },
        Instruction::I32Const(0),
        Instruction::If {
            block_type: 0x40,
            then_body: vec![Instruction::I32Const(30)],
            else_body: vec![Instruction::I32Const(40)],
        },
        Instruction::I32Const(0),
        Instruction::If { block_type: 0x40, then_body: vec![Instruction::Unreachable], else_body: vec![] },
        Instruction::I32Const(50),
        Instruction::Drop,
        Instruction::I32Const(4),
    ];
    assert_eq!(
        result_of(body),
        vec![
            Value::I32(1),
            Value::I32(2),
            Value::I32(3),
            Value::I32(10),
            Value::I32(40),
            Value::I32(4)
        ]
    );
}

#[test]
fn return_leaves_the_function() {
    let body = vec![
        Instruction::I32Const(1),
        Instruction::Block {
            block_type: 0x40,
            body: vec![
                Instruction::I32Const(1),
                Instruction::If {
                    block_type: 0x40,
                    then_body: vec![Instruction::Return, Instruction::I32Const(2)],
                    else_body: vec![],
                },
                Instruction::I32Const(3),
            ],
        },
        Instruction::I32Const(4),
    ];
    assert_eq!(result_of(body), vec![Value::I32(1)]);
}

#[test]
fn calls() {
    let module = Module {
        functions: Functions {
            imports: vec![],
            wasm: vec![
                function(0, None, vec![Instruction::I32Const(5), Instruction::Return, Instruction::Unreachable]),
                function(
                    1,
                    Some("_start"),
                    vec![
                        Instruction::Call { function_index: 0 },
                        Instruction::Call { function_index: 0 },
                        Instruction::I32Add,
                        Instruction::Call { function_index: 7 },
                    ],
                ),
            ],
        },
        memory_blueprint: None,
    };
    let mut instance = Instance::new(module, &vec![]).unwrap();
    assert_eq!(instance.exec_start(), Ok(()));
    assert_eq!(instance.call_stack, vec![Frame { function_index: 1, levels: vec![], pc: 0 }]);
    assert_eq!(instance.step(), Outcome::Running);
    assert_eq!(
        instance.call_stack,
        vec![
            Frame { function_index: 1, levels: vec![], pc: 1 },
            Frame { function_index: 0, levels: vec![], pc: 0 },
        ]
    );
    assert_eq!(
        instance.run(FUEL),
        Outcome::Trapped(ExecutionError::FunctionIndexOutOfBounds { index: 7, len: 2 })
    );
    assert_eq!(instance.operand_stack(), &vec![Value::I32(10)]);
    assert!(instance.call_stack.is_empty());
    assert_eq!(instance.exec_function(0), Outcome::Running);
    assert_eq!(instance.call_stack, vec![Frame { function_index: 0, levels: vec![], pc: 0 }]);
}

#[test]
fn a_host_call_is_on_the_call_stack() {
    let module = Module {
        functions: Functions {
            imports: vec![rust_wasm_runtime::exec::ExternFunction {
                name: Identifier::new("env", "put"),
                signature: FunctionSignature::default(),
            }],
            wasm: vec![function(
                1,
                Some("_start"),
                vec![Instruction::Call { function_index: 0 }, Instruction::I32Const(1)],
            )],
        },
        memory_blueprint: None,
    };
    let host = vec![HostFunction {
        name: Identifier::new("env", "put"),
        signature: FunctionSignature::default(),
    }];
    let mut instance = Instance::new(module, &host).unwrap();
    assert_eq!(instance.exec_function(0), Outcome::HostCall { function: 0 });
    assert_eq!(instance.call_stack, vec![Frame { function_index: 0, levels: vec![], pc: 0 }]);
    assert!(instance.is_well_formed());
    instance.host_return();
    assert!(instance.call_stack.is_empty());
    instance.host_return();
    assert!(instance.call_stack.is_empty());
    assert_eq!(instance.start(FUEL), Outcome::HostCall { function: 0 });
    let caller = Frame { function_index: 1, levels: vec![], pc: 1 };
    assert_eq!(
        instance.call_stack,
        vec![
            Frame { function_index: 1, levels: vec![], pc: 1 },
            Frame { function_index: 0, levels: vec![], pc: 0 }
        ]
    );
    assert_eq!(instance.step(), Outcome::HostCall { function: 0 });
    assert_eq!(instance.call_stack.len(), 2);
    instance.host_return();
    assert_eq!(instance.call_stack, vec![caller]);
    instance.host_return();
    assert_eq!(instance.call_stack.len(), 1);
    assert_eq!(instance.run(FUEL), Outcome::Finished);
    assert_eq!(instance.operand_stack(), &vec![Value::I32(1)]);
    instance.call_stack.push(Frame { function_index: 0, levels: vec![], pc: 1 });
    assert!(!instance.is_well_formed());
    instance.call_stack[0].pc = 0;
    assert!(instance.is_well_formed());
    instance.call_stack[0].levels.push(Level { index: 0, else_branch: false });
    assert!(!instance.is_well_formed());
}

#[test]
fn a_failed_host_call_unwinds() {
    let mut instance = instance_of(vec![], one_page());
    instance.call_stack.push(Frame { function_index: 0, levels: vec![], pc: 0 });
    for value in [1, 4092, 1, 0] {
        instance.operand_stack.push(Value::I32(value));
    }
    assert!(fd_write(&mut instance).is_err());
    assert!(instance.call_stack.is_empty());
    instance.call_stack.push(Frame { function_index: 0, levels: vec![], pc: 0 });
    assert!(fd_write_done(&mut instance, 4094, Ok(0)).is_err());
    assert!(instance.call_stack.is_empty());
    instance.call_stack.push(Frame { function_index: 0, levels: vec![], pc: 0 });
    assert_eq!(fd_write_done(&mut instance, 0, Ok(0)), Ok(()));
    assert_eq!(instance.call_stack.len(), 1);
}

#[test]
fn frames_follow_nested_lists() {
    let mut instance = instance_of(
        vec![
            Instruction::I32Const(0),
            Instruction::If {
                block_type: 0x40,
                then_body: vec![],
                else_body: vec![Instruction::Block { block_type: 0x40, body: vec![Instruction::Nop] }],
            },
        ],
        None,
    );
    assert_eq!(instance.exec_start(), Ok(()));
    assert_eq!(instance.run(3), Outcome::Running);
    assert_eq!(
        instance.call_stack,
        vec![Frame {
            function_index: 0,
            levels: vec![
                Level { index: 1, else_branch: true },
                Level { index: 0, else_branch: false }
            ],
            pc: 0
        }]
    );
    assert_eq!(instance.run(2), Outcome::Running);
    assert_eq!(
        instance.call_stack,
        vec![Frame { function_index: 0, levels: vec![Level { index: 1, else_branch: true }], pc: 1 }]
    );
    assert_eq!(instance.run(1), Outcome::Running);
    assert_eq!(instance.call_stack, vec![Frame { function_index: 0, levels: vec![], pc: 2 }]);
    assert_eq!(instance.run(1), Outcome::Running);
    assert!(instance.call_stack.is_empty());
    assert_eq!(instance.run(1), Outcome::Finished);
}

#[test]
fn a_run_can_be_taken_in_parts() {
    let body = || {
        vec![
            Instruction::I32Const(5),
            Instruction::Block { block_type: 0x40, body: vec![Instruction::I32Const(7)] },
            Instruction::I32Add,
        ]
    };
    let mut whole = instance_of(body(), None);
    assert_eq!(whole.start(FUEL), Outcome::Finished);
    let mut parts = instance_of(body(), None);
    assert_eq!(parts.start(2), Outcome::Running);
    assert_eq!(parts.run(1), Outcome::Running);
    assert_eq!(parts.run(FUEL), Outcome::Finished);
    assert_eq!(whole.operand_stack(), parts.operand_stack());
    assert_eq!(parts.operand_stack(), &vec![Value::I32(12)]);
    let mut endless = instance_of(vec![Instruction::Call { function_index: 0 }], None);
    assert_eq!(endless.start(1000), Outcome::Running);
    assert_eq!(endless.call_stack.len(), 1001);
}

#[test]
fn the_invariant_can_be_tested() {
    let mut instance = instance_of(
        vec![Instruction::Block { block_type: 0x40, body: vec![Instruction::Nop] }],
        one_page(),
    );
    assert!(instance.is_well_formed());
    assert_eq!(instance.exec_start(), Ok(()));
    for _ in 0..6 {
        assert!(instance.is_well_formed());
        instance.step();
    }
    assert!(instance.is_well_formed());
    instance.call_stack.push(Frame { function_index: 0, levels: vec![], pc: 2 });
    assert!(!instance.is_well_formed());
    instance.call_stack[0].pc = 1;
    assert!(instance.is_well_formed());
    instance.call_stack[0].levels.push(Level { index: 0, else_branch: true });
    assert!(!instance.is_well_formed());
    instance.call_stack[0].levels[0].else_branch = false;
    assert!(instance.is_well_formed());
    instance.call_stack[0].function_index = 1;
    assert!(!instance.is_well_formed());
    instance.unwind();
    assert!(instance.is_well_formed());
    instance.memory.as_mut().unwrap().data.push(0);
    assert!(!instance.is_well_formed());
    assert!(!instance.memory().as_ref().unwrap().is_well_formed());
}

#[test]
fn arithmetic_changes_the_stack_by_its_signature() {
    let cases = vec![
        (Instruction::I32Const(1), 0u8, Type::I32, Type::I32),
        (Instruction::F64Const(1), 0, Type::F64, Type::F64),
        (Instruction::I32Eqz, 1, Type::I32, Type::I32),
        (Instruction::I64Eqz, 1, Type::I64, Type::I32),
        (Instruction::I64Popcnt, 1, Type::I64, Type::I64),
        (Instruction::I32WrapI64, 1, Type::I64, Type::I32),
        (Instruction::I64ExtendI32U, 1, Type::I32, Type::I64),
        (Instruction::I32ReinterpretF32, 1, Type::F32, Type::I32),
        (Instruction::F64ReinterpretI64, 1, Type::I64, Type::F64),
        (Instruction::I32Add, 2, Type::I32, Type::I32),
        (Instruction::I32LtU, 2, Type::I32, Type::I32),
        (Instruction::I64GeS, 2, Type::I64, Type::I32),
        (Instruction::I64Rotr, 2, Type::I64, Type::I64),
    ];
    for (instruction, operands, operand_type, result_type) in cases {
        assert_eq!(instruction.shape_of(), Some(Shape { operands, operand_type, result_type }));
        let operand = match operand_type {
            Type::I32 => Instruction::I32Const(3),
            Type::I64 => Instruction::I64Const(3),
            Type::F32 => Instruction::F32Const(3),
            _ => Instruction::F64Const(3),
        };
        let mut body = vec![Instruction::I32Const(9)];
        for _ in 0..operands {
            body.push(match &operand {
                Instruction::I32Const(v) => Instruction::I32Const(*v),
                Instruction::I64Const(v) => Instruction::I64Const(*v),
                Instruction::F32Const(v) => Instruction::F32Const(*v),
                Instruction::F64Const(v) => Instruction::F64Const(*v),
                _ => unreachable!(),
            });
        }
        body.push(instruction);
        let stack = result_of(body);
        assert_eq!(stack.len(), 2);
        assert_eq!(stack[0], Value::I32(9));
    }
    assert_eq!(Instruction::Drop.shape_of(), None);
    assert_eq!(Instruction::F32Add.shape_of(), None);
    assert_eq!(Instruction::I32Load(memarg(0)).shape_of(), None);
}

#[test]
fn select() {
    let select = |condition: i32| {
        result_of(vec![
            Instruction::I32Const(10),
            Instruction::I64Const(20),
            Instruction::I32Const(condition),
            Instruction::Select,
        ])
    };
    assert_eq!(select(1), vec![Value::I32(10)]);
    assert_eq!(select(0), vec![Value::I64(20)]);
    assert_eq!(
        trap_of(vec![Instruction::I32Const(10), Instruction::I32Const(1), Instruction::Select]),
        ExecutionError::PopOnEmptyOperandStack
    );
}

#[test]
fn stack_errors() {
    assert_eq!(trap_of(vec![Instruction::I32Add]), ExecutionError::PopOnEmptyOperandStack);
    assert_eq!(trap_of(vec![Instruction::Drop]), ExecutionError::PopOnEmptyOperandStack);
    assert_eq!(
        trap_of(vec![Instruction::I32Const(1), Instruction::I32Add]),
        ExecutionError::PopOnEmptyOperandStack
    );
    let (outcome, stack) =
        run_body(vec![Instruction::I32Const(1), Instruction::I64Const(2), Instruction::I32Add]);
    assert_eq!(
        outcome,
        Outcome::Trapped(ExecutionError::StackTypeError { expected: Type::I32, got: Value::I64(2) })
    );
    assert_eq!(stack, vec![Value::I32(1)]);
    assert_eq!(
        trap_of(vec![Instruction::I64Const(1), Instruction::If { block_type: 0x40, then_body: vec![], else_body: vec![] }]),
        ExecutionError::StackTypeError { expected: Type::I32, got: Value::I64(1) }
    );
    assert_eq!(
        trap_of(vec![Instruction::I32Const(0), Instruction::I32Const(0), Instruction::I64Store(memarg(0))]),
        ExecutionError::StackTypeError { expected: Type::I64, got: Value::I32(0) }
    );
    assert_eq!(trap_of(vec![Instruction::Unreachable]), ExecutionError::Unreachable);
}

#[test]
fn instructions_that_are_passed_over() {
    let mut instance = instance_of(
        vec![
            Instruction::I32Const(1),
            Instruction::LocalGet(0),
            Instruction::F32Add,
            Instruction::BrTable { label_indexes: vec![0] },
            Instruction::Br { label_index: 0 },
            Instruction::I32Const(2),
        ],
        None,
    );
    assert_eq!(instance.start(FUEL), Outcome::Unimplemented(Opcode::LocalGet));
    assert_eq!(instance.run(FUEL), Outcome::Unimplemented(Opcode::F32Add));
    assert_eq!(instance.run(FUEL), Outcome::Unimplemented(Opcode::BrTable));
    assert_eq!(instance.run(FUEL), Outcome::Unimplemented(Opcode::Br));
    assert_eq!(instance.run(FUEL), Outcome::Finished);
    assert_eq!(instance.operand_stack(), &vec![Value::I32(1), Value::I32(2)]);
}

#[test]
fn start_begins_with_the_surviving_stack() {
    let mut instance = instance_of(vec![Instruction::I32Const(1)], None);
    assert_eq!(instance.start(FUEL), Outcome::Finished);
    assert_eq!(instance.start(FUEL), Outcome::Finished);
    assert_eq!(instance.operand_stack(), &vec![Value::I32(1), Value::I32(1)]);
    assert_eq!(instance.op_stack_pop(), Ok(Value::I32(1)));
    assert_eq!(instance.op_stack_pop(), Ok(Value::I32(1)));
    assert_eq!(instance.op_stack_pop(), Err(ExecutionError::PopOnEmptyOperandStack));
}

#[test]
fn imports_are_resolved_by_name() {
    let module = || Module {
        functions: Functions {
            imports: vec![rust_wasm_runtime::exec::ExternFunction {
                name: Identifier::new("env", "put"),
                signature: FunctionSignature { params: vec![Type::I32], results: vec![] },
            }],
            wasm: vec![function(1, Some("_start"), vec![Instruction::Call { function_index: 0 }])],
        },
        memory_blueprint: None,
    };
    let put = |params: Vec<Type>| HostFunction {
        name: Identifier::new("env", "put"),
        signature: FunctionSignature { params, results: vec![] },
    };
    let other = HostFunction {
        name: Identifier::new("env", "get"),
        signature: FunctionSignature::default(),
    };
    let mut instance = Instance::new(module(), &vec![other, put(vec![Type::I32])]).unwrap();
    assert_eq!(instance.start(FUEL), Outcome::HostCall { function: 1 });
    assert_eq!(instance.run(FUEL), Outcome::HostCall { function: 1 });
    instance.host_return();
    assert_eq!(instance.run(FUEL), Outcome::Finished);
    assert_eq!(
        Instance::new(module(), &vec![]).err(),
        Some(ExecutionError::UnresolvedImport(Identifier::new("env", "put")))
    );
    assert_eq!(
        Instance::new(module(), &vec![put(vec![Type::I64])]).err(),
        Some(ExecutionError::SignatureMismatch(Identifier::new("env", "put")))
    );
}

#[test]
fn memory_is_built_from_the_blueprint() {
    let blueprint = |start: u64, end: u64, init: Vec<DataSegment>| {
        Some(MemoryBlueprint { page_limit: PageLimit { start, end }, export_name: Some("memory".to_owned()), init })
    };
    let instance = instance_of(
        vec![],
        blueprint(
            2,
            3,
            vec![
                DataSegment { addr: 8, data: b"Hi\n".to_vec() },
                DataSegment { addr: 10, data: vec![1, 2] },
                DataSegment { addr: 8190, data: vec![9, 9] },
            ],
        ),
    );
    let memory = instance.memory().as_ref().unwrap();
    assert_eq!(memory.data().len(), 8192);
    assert_eq!(memory.data()[7..13], [0, b'H', b'i', 1, 2, 0]);
    assert_eq!(memory.data()[8190..], [9, 9]);
    assert_eq!(memory.name, Some("memory".to_owned()));
    assert_eq!(memory.page_limit, PageLimit { start: 2, end: 3 });
    let failing = |memory: Option<MemoryBlueprint>| {
        Instance::new(
            Module { functions: Functions::default(), memory_blueprint: memory },
            &vec![],
        )
        .err()
    };
    assert_eq!(
        failing(blueprint(1, 1, vec![DataSegment { addr: 4095, data: vec![1, 2] }])),
        Some(ExecutionError::InvalidMemoryArea {
            addr: AddressRange { start: 4095, end: 4097 },
            size: 4096
        })
    );
    assert_eq!(
        failing(blueprint(2, 1, vec![])),
        Some(ExecutionError::InvalidPageLimit { start: 2, end: 1 })
    );
    assert_eq!(
        failing(blueprint(u64::MAX, u64::MAX, vec![])),
        Some(ExecutionError::MemoryLimitExceeded { pages: u64::MAX, limit: u64::MAX })
    );
}
