use rust_wasm_runtime::exec::types::to_decimal;
use rust_wasm_runtime::exec::{
    AddressRange, Callable, ExecutionError, Identifier, MemObject, Memory, OperandStack, Value,
    WasmFunction, MEMORY_PAGE_SIZE,
};
use rust_wasm_runtime::parse::{PageLimit, Type};

fn memory(start: u64, end: u64) -> Memory {
    let mut memory = Memory { data: Vec::new(), page_limit: PageLimit { start, end }, name: None };
    assert_eq!(memory.grow(start as usize), Ok(()));
    memory
}

#[test]
fn memory_grows_by_pages() {
    let mut memory = memory(1, 4);
    assert_eq!(MEMORY_PAGE_SIZE, 4096);
    assert_eq!(memory.page_size(), 1);
    assert_eq!(memory.data().len(), 4096);
    memory.write::<u32>(&0xDEAD_BEEF, 4092);
    assert_eq!(memory.grow(3), Ok(()));
    assert_eq!(memory.page_size(), 3);
    assert_eq!(memory.data().len() % MEMORY_PAGE_SIZE, 0);
    assert_eq!(memory.data().len(), 3 * 4096);
    assert_eq!(memory.read::<u32>(4092), 0xDEAD_BEEF);
    assert!(memory.data()[4096..].iter().all(|b| *b == 0));
    assert_eq!(memory.try_grow(1), Ok(3));
    assert_eq!(memory.page_size(), 4);
    assert_eq!(
        memory.try_grow(1),
        Err(ExecutionError::MemoryLimitExceeded { pages: 5, limit: 4 })
    );
    assert_eq!(memory.page_size(), 4);
    assert_eq!(memory.try_grow(0), Ok(4));
    assert!(memory.is_well_formed());
}

#[test]
fn memory_never_gets_shorter() {
    let mut memory = memory(1, 4);
    assert_eq!(memory.grow(3), Ok(()));
    memory.write::<u32>(&0xDEAD_BEEF, 3 * 4096 - 4);
    let before = memory.data().to_vec();
    assert_eq!(memory.grow(1), Ok(()));
    assert_eq!(memory.data(), &before[..]);
    assert_eq!(memory.grow(0), Ok(()));
    assert_eq!(memory.grow(3), Ok(()));
    assert_eq!(memory.data(), &before[..]);
    assert_eq!(memory.page_size(), 3);
    assert_eq!(memory.read::<u32>(3 * 4096 - 4), 0xDEAD_BEEF);
    assert!(memory.is_well_formed());
}

#[test]
fn growth_beyond_the_limit_is_refused() {
    let mut memory = memory(1, 2);
    memory.write::<u8>(&7, 0);
    let before = memory.data().to_vec();
    assert_eq!(memory.grow(3), Err(ExecutionError::MemoryLimitExceeded { pages: 3, limit: 2 }));
    assert_eq!(memory.data(), &before[..]);
    assert_eq!(
        memory.grow(usize::MAX),
        Err(ExecutionError::MemoryLimitExceeded { pages: usize::MAX as u64, limit: 2 })
    );
    assert_eq!(memory.data(), &before[..]);
    assert_eq!(memory.grow(2), Ok(()));
    assert_eq!(memory.data().len(), 8192);
    assert_eq!(memory.data()[0], 7);
    let mut wide = Memory {
        data: Vec::new(),
        page_limit: PageLimit { start: 0, end: u64::MAX },
        name: None,
    };
    assert_eq!(
        wide.grow(usize::MAX / 4096 + 1),
        Err(ExecutionError::MemoryLimitExceeded {
            pages: (usize::MAX / 4096 + 1) as u64,
            limit: u64::MAX
        })
    );
    assert!(wide.data().is_empty());
}

#[test]
fn memory_reads_what_it_wrote() {
    let mut memory = memory(1, 1);
    memory.write::<u32>(&0x0403_0201, 0);
    assert_eq!(memory.data()[0..5], [1, 2, 3, 4, 0]);
    assert_eq!(memory.read::<u32>(0), 0x0403_0201);
    assert_eq!(memory.read::<u16>(1), 0x0302);
    assert_eq!(memory.read::<u8>(3), 4);
    assert_eq!(memory.read::<u64>(0), 0x0403_0201);
    memory.write::<u64>(&0x0807_0605_0403_0201, 8);
    assert_eq!(memory.data()[8..16], [1, 2, 3, 4, 5, 6, 7, 8]);
    assert_eq!(memory.read::<u64>(8), 0x0807_0605_0403_0201);
    memory.write::<u16>(&0xBBAA, 9);
    memory.write::<u8>(&0xCC, 11);
    assert_eq!(memory.data()[8..13], [1, 0xAA, 0xBB, 0xCC, 5]);
    assert_eq!(u32::read_from_mem(&memory, 8), 0xCCBB_AA01);
    0x1122_3344u32.write_to_mem(&mut memory, 4092);
    assert_eq!(memory.data()[4092..], [0x44, 0x33, 0x22, 0x11]);
    assert_eq!(u8::byte_width() + u16::byte_width() + u32::byte_width() + u64::byte_width(), 15);
}

#[test]
fn checked_access_stays_within_the_memory() {
    let mut memory = memory(1, 1);
    assert_eq!(memory.store::<u32>(&7, 4092), Ok(()));
    assert_eq!(memory.load::<u32>(4092), Ok(7));
    assert_eq!(
        memory.store::<u32>(&7, 4093),
        Err(ExecutionError::InvalidMemoryArea {
            addr: AddressRange { start: 4093, end: 4097 },
            size: 4096
        })
    );
    assert_eq!(
        memory.load::<u64>(usize::MAX),
        Err(ExecutionError::InvalidMemoryArea {
            addr: AddressRange { start: usize::MAX, end: usize::MAX },
            size: 4096
        })
    );
    assert_eq!(memory.check_area(4000, 90, 6), Ok(4090));
    assert_eq!(
        memory.check_area(usize::MAX, 1, 1),
        Err(ExecutionError::InvalidMemoryArea {
            addr: AddressRange { start: usize::MAX, end: usize::MAX },
            size: 4096
        })
    );
    assert_eq!(memory.load::<u8>(4095), Ok(0));
    assert!(memory.load::<u8>(4096).is_err());
}

#[test]
fn operand_stack_pops_what_was_pushed() {
    let mut stack = OperandStack::new();
    assert_eq!(stack.len(), 0);
    stack.push(5i32);
    stack.push(-1i32);
    stack.push(u32::MAX);
    stack.push(7i64);
    stack.push(u64::MAX);
    stack.push(Value::F32(9));
    assert_eq!(
        stack.values(),
        &vec![
            Value::I32(5),
            Value::I32(-1),
            Value::I32(-1),
            Value::I64(7),
            Value::I64(-1),
            Value::F32(9)
        ]
    );
    assert_eq!(stack.pop::<Value>(), Ok(Value::F32(9)));
    assert_eq!(stack.pop::<i64>(), Ok(-1));
    assert_eq!(stack.pop::<u64>(), Ok(7));
    assert_eq!(stack.pop::<u32>(), Ok(u32::MAX));
    assert_eq!(stack.pop::<u32>(), Ok(u32::MAX));
    assert_eq!(stack.pop::<i32>(), Ok(5));
    assert_eq!(stack.pop::<i32>(), Err(ExecutionError::PopOnEmptyOperandStack));
    assert_eq!(stack.len(), 0);
}

#[test]
fn operand_stack_takes_indices() {
    let mut stack = OperandStack::new();
    stack.push(42usize);
    assert_eq!(stack.values(), &vec![Value::I64(42)]);
    assert_eq!(stack.pop::<usize>(), Ok(42));
    stack.push(7i32);
    assert_eq!(
        stack.pop::<usize>(),
        Err(ExecutionError::StackTypeError { expected: Type::I64, got: Value::I32(7) })
    );
}

#[test]
fn callables_have_names() {
    let exported = Callable::WasmFunction(WasmFunction {
        index: 3,
        export_name: Some("_start".to_owned()),
        ..WasmFunction::default()
    });
    let unnamed = |index: usize| Callable::WasmFunction(WasmFunction { index, ..WasmFunction::default() });
    let host = Callable::HostFunction { name: Identifier::new("env", "put"), function: 0 };
    assert_eq!(exported.name(), "_start");
    assert_eq!(unnamed(0).name(), "0");
    assert_eq!(unnamed(7).name(), "7");
    assert_eq!(unnamed(10).name(), "10");
    assert_eq!(unnamed(1234567890).name(), "1234567890");
    assert_eq!(host.name(), "env.put");
    assert_eq!(to_decimal(usize::MAX), usize::MAX.to_string());
}

#[test]
fn operand_stack_checks_the_type() {
    let mut stack = OperandStack::new();
    stack.push(1i32);
    stack.push(2i64);
    assert_eq!(
        stack.pop::<i32>(),
        Err(ExecutionError::StackTypeError { expected: Type::I32, got: Value::I64(2) })
    );
    assert_eq!(stack.len(), 1);
    assert_eq!(
        stack.pop::<u64>(),
        Err(ExecutionError::StackTypeError { expected: Type::I64, got: Value::I32(1) })
    );
    stack.push(Value::F64(3));
    assert_eq!(
        stack.pop_typed(Type::F32),
        Err(ExecutionError::StackTypeError { expected: Type::F32, got: Value::F64(3) })
    );
    stack.push(Value::F64(3));
    assert_eq!(stack.pop_typed(Type::F64), Ok(Value::F64(3)));
    assert_eq!(stack.pop_typed(Type::I32), Err(ExecutionError::PopOnEmptyOperandStack));
}
