use rust_wasm_runtime::exec::{ExternFunction, FunctionSignature, Identifier, Instruction, MemArg};
use rust_wasm_runtime::parse::stream::{parse_block, parse_instructions, read_exact};
use rust_wasm_runtime::parse::varint::{read_i32, read_i64, read_u32, read_u64};
use rust_wasm_runtime::parse::{
    DataMode, DataSegment, ExportKind, LimitKind, Module, Opcode, PageLimit, Parser, ParsingError,
    SectionId, Type,
};

const HEADER: [u8; 8] = [0x00, 0x61, 0x73, 0x6D, 0x01, 0x00, 0x00, 0x00];

fn module_of(sections: &[&[u8]]) -> Vec<u8> {
    let mut bytes = HEADER.to_vec();
    for section in sections {
        bytes.extend_from_slice(section);
    }
    bytes
}

const TYPES: [u8; 14] = [
    0x01, 0x0C, 0x02, 0x60, 0x04, 0x7F, 0x7F, 0x7F, 0x7F, 0x01, 0x7F, 0x60, 0x00, 0x00,
];

#[test]
fn empty_source_is_not_a_module() {
    assert_eq!(Module::new(&[]), Err(ParsingError::NotAWasmModule));
}

#[test]
fn wrong_magic_is_not_a_module() {
    assert_eq!(
        Module::new(&[0x00, 0x61, 0x73, 0x6E, 0x01, 0x00, 0x00, 0x00]),
        Err(ParsingError::NotAWasmModule)
    );
    assert_eq!(Module::new(&[0x00, 0x61, 0x73]), Err(ParsingError::NotAWasmModule));
}

#[test]
fn minimum_module() {
    let module = Module::new(&HEADER).unwrap();
    assert!(module.functions.imports.is_empty());
    assert!(module.functions.wasm.is_empty());
    assert!(module.memory_blueprint.is_none());
    assert_eq!(module, Module::default());
}

#[test]
fn version_two_is_illegal() {
    assert_eq!(
        Module::new(&[0x00, 0x61, 0x73, 0x6D, 0x02, 0x00, 0x00, 0x00]),
        Err(ParsingError::IllegalVersion([0x02, 0x00, 0x00, 0x00]))
    );
}

#[test]
fn truncated_version_ends_early() {
    assert_eq!(
        Module::new(&[0x00, 0x61, 0x73, 0x6D, 0x01, 0x00]),
        Err(ParsingError::UnexpectedEndOfInput)
    );
}

#[test]
fn two_parses_agree() {
    let bytes = module_of(&[&TYPES, &[0x03, 0x02, 0x01, 0x01], &[0x05, 0x04, 0x01, 0x01, 0x01, 0x02]]);
    assert_eq!(Module::new(&bytes), Module::new(&bytes));
    assert_eq!(Module::new(&bytes[..20]), Module::new(&bytes[..20]));
}

#[test]
fn type_section() {
    let wasm = [
        0x02, // num types
        0x60, 0x02, 0x7f, 0x7f, 0x01, 0x7f, // (i32, i32) -> i32
        0x60, 0x01, 0x7f, 0x01, 0x7f, // i32 -> i32
    ];
    let mut parser = Parser::new();
    let end = parser.parse_type_section(&wasm, 0).unwrap();
    assert_eq!(end, wasm.len());
    assert_eq!(
        parser.types,
        vec![
            FunctionSignature { params: vec![Type::I32, Type::I32], results: vec![Type::I32] },
            FunctionSignature { params: vec![Type::I32], results: vec![Type::I32] },
        ]
    );
}

#[test]
fn function_section() {
    let types = [0x02, 0x60, 0x02, 0x7f, 0x7f, 0x01, 0x7f, 0x60, 0x01, 0x7f, 0x01, 0x7f];
    let wasm = [0x02, 0x00, 0x01];
    let mut parser = Parser::new();
    parser.parse_type_section(&types, 0).unwrap();
    assert_eq!(parser.parse_function_section(&wasm, 0), Ok(3));
    let functions = &parser.module.functions.wasm;
    assert_eq!(functions.len(), 2);
    assert_eq!(functions[0].signature, parser.types[0]);
    assert_eq!(functions[1].signature, parser.types[1]);
    assert_eq!(functions[0].index, 0);
    assert_eq!(functions[1].index, 1);
    assert!(functions[0].body.is_empty());
    assert_eq!(functions[1].export_name, None);
}

#[test]
fn export_section() {
    let types = [0x01, 0x60, 0x00, 0x00];
    let wasm = [
        0x01, // num exports
        0x06, 0x61, 0x64, 0x64, 0x54, 0x77, 0x6f, // "addTwo"
        0x00, // export kind
        0x00, // export func index
    ];
    let mut parser = Parser::new();
    parser.parse_type_section(&types, 0).unwrap();
    parser.parse_function_section(&[0x01, 0x00], 0).unwrap();
    assert_eq!(parser.parse_export_section(&wasm, 0), Ok(wasm.len()));
    assert_eq!(parser.module.functions.wasm[0].export_name, Some("addTwo".to_owned()));
}

#[test]
fn export_of_memory_table_and_global() {
    let bytes = module_of(&[
        &[0x05, 0x03, 0x01, 0x00, 0x02],
        &[0x07, 0x0D, 0x03, 0x03, b'm', b'e', b'm', 0x02, 0x00, 0x01, b't', 0x01, 0x00, 0x01, b'g', 0x03, 0x05],
    ]);
    let module = Module::new(&bytes).unwrap();
    let memory = module.memory_blueprint.unwrap();
    assert_eq!(memory.export_name, Some("mem".to_owned()));
    assert_eq!(memory.page_limit, PageLimit { start: 2, end: 0x1_0000_0000 });
}

#[test]
fn import_section() {
    let mut import = vec![0x02, 0x23, 0x01, 0x16];
    import.extend_from_slice(b"wasi_snapshot_preview1");
    import.push(0x08);
    import.extend_from_slice(b"fd_write");
    import.extend_from_slice(&[0x00, 0x00]);
    let bytes = module_of(&[&TYPES, &import, &[0x03, 0x02, 0x01, 0x01]]);
    let module = Module::new(&bytes).unwrap();
    assert_eq!(
        module.functions.imports,
        vec![ExternFunction {
            name: Identifier::new("wasi_snapshot_preview1", "fd_write"),
            signature: FunctionSignature {
                params: vec![Type::I32, Type::I32, Type::I32, Type::I32],
                results: vec![Type::I32],
            },
        }]
    );
    assert_eq!(module.functions.wasm.len(), 1);
    assert_eq!(module.functions.wasm[0].index, 1);
}

#[test]
fn memory_section_with_maximum() {
    let bytes = module_of(&[&[0x05, 0x04, 0x01, 0x01, 0x01, 0x02]]);
    let module = Module::new(&bytes).unwrap();
    let memory = module.memory_blueprint.unwrap();
    assert_eq!(memory.page_limit, PageLimit { start: 1, end: 2 });
    assert_eq!(memory.export_name, None);
    assert!(memory.init.is_empty());
}

#[test]
fn memory_section_without_memory() {
    let module = Module::new(&module_of(&[&[0x05, 0x01, 0x00]])).unwrap();
    assert!(module.memory_blueprint.is_none());
}

#[test]
fn code_section_with_locals() {
    let bytes = module_of(&[
        &TYPES,
        &[0x03, 0x02, 0x01, 0x01],
        &[0x0A, 0x0A, 0x01, 0x08, 0x02, 0x02, 0x7F, 0x01, 0x7E, 0x20, 0x02, 0x0B],
    ]);
    let module = Module::new(&bytes).unwrap();
    let function = &module.functions.wasm[0];
    assert_eq!(function.locals, vec![Type::I32, Type::I32, Type::I64]);
    assert_eq!(function.body, vec![Instruction::LocalGet(2)]);
}

#[test]
fn code_section_with_store() {
    let bytes = module_of(&[
        &[0x01, 0x04, 0x01, 0x60, 0x00, 0x00],
        &[0x03, 0x02, 0x01, 0x00],
        &[0x05, 0x03, 0x01, 0x00, 0x01],
        &[0x07, 0x0A, 0x01, 0x06, b'_', b's', b't', b'a', b'r', b't', 0x00, 0x00],
        &[0x0A, 0x0B, 0x01, 0x09, 0x00, 0x41, 0x00, 0x41, 0xC1, 0x00, 0x36, 0x00, 0x00, 0x0B],
    ]);
    let module = Module::new(&bytes).unwrap();
    assert_eq!(module.functions.wasm.len(), 1);
    let function = &module.functions.wasm[0];
    assert_eq!(function.export_name, Some("_start".to_string()));
    assert_eq!(function.index, 0);
    assert_eq!(
        function.body,
        vec![
            Instruction::I32Const(0),
            Instruction::I32Const(0x41),
            Instruction::I32Store(MemArg { align: 0, offset: 0 }),
        ]
    );
}

#[test]
fn data_section() {
    let bytes = module_of(&[
        &[0x05, 0x03, 0x01, 0x00, 0x01],
        &[0x0B, 0x10, 0x02, 0x00, 0x41, 0x08, 0x0B, 0x03, b'H', b'i', b'\n', 0x00, 0x41, 0x7F, 0x0B, 0x01, 0x2A],
    ]);
    let module = Module::new(&bytes).unwrap();
    assert_eq!(
        module.memory_blueprint.unwrap().init,
        vec![
            DataSegment { addr: 8, data: b"Hi\n".to_vec() },
            DataSegment { addr: 0xFFFF_FFFF, data: vec![0x2A] },
        ]
    );
}

#[test]
fn custom_and_skipped_sections() {
    let bytes = module_of(&[
        &[0x00, 0x03, 0xAA, 0xBB, 0xCC],
        &[0x04, 0x01, 0x00],
        &[0x06, 0x00],
        &[0x08, 0x01, 0x00],
        &[0x09, 0x02, 0x01, 0x02],
        &[0x0C, 0x01, 0x00],
    ]);
    assert_eq!(Module::new(&bytes), Ok(Module::default()));
    assert_eq!(
        Module::new(&module_of(&[&[0x00, 0x03, 0xAA]])),
        Err(ParsingError::UnexpectedEndOfInput)
    );
}

#[test]
fn nested_blocks() {
    let code = [
        0x02, 0x40, // block
        0x03, 0x7F, // loop
        0x01, // nop
        0x0B, // end loop
        0x04, 0x40, // if
        0x00, // unreachable
        0x05, // else
        0x1A, // drop
        0x0B, // end if
        0x04, 0x40, 0x0F, 0x0B, // if return end
        0x0B, // end block
        0x0B, // end body
    ];
    assert_eq!(
        parse_block(&code, 0),
        Ok((
            vec![Instruction::Block {
                block_type: 0x40,
                body: vec![
                    Instruction::Loop { block_type: 0x7F, body: vec![Instruction::Nop] },
                    Instruction::If {
                        block_type: 0x40,
                        then_body: vec![Instruction::Unreachable],
                        else_body: vec![Instruction::Drop],
                    },
                    Instruction::If {
                        block_type: 0x40,
                        then_body: vec![Instruction::Return],
                        else_body: vec![],
                    },
                ],
            }],
            code.len()
        ))
    );
}

#[test]
fn instruction_list_ends_at_else() {
    assert_eq!(
        parse_instructions(&[0x01, 0x05, 0x01, 0x0B], 0),
        Ok(((vec![Instruction::Nop], Opcode::Else), 2))
    );
    assert_eq!(
        parse_block(&[0x01, 0x05, 0x01, 0x0B], 0),
        Err(ParsingError::ExpectedOpcode(Opcode::End))
    );
}

#[test]
fn instructions_with_immediates() {
    let code = [
        0x0C, 0x01, // br 1
        0x0D, 0x02, // br_if 2
        0x0E, 0x02, 0x00, 0x01, 0x03, // br_table [0, 1] 3
        0x10, 0x80, 0x01, // call 128
        0x11, 0x02, 0x05, // call_indirect
        0x21, 0x03, 0x22, 0x04, 0x23, 0x05, 0x24, 0x06, 0x25, 0x07, 0x26, 0x08, // local/global/table
        0x28, 0x02, 0x10, // i32.load align 2 offset 16
        0x3E, 0x00, 0xFF, 0x01, // i64.store32 offset 255
        0x42, 0x7F, // i64.const -1
        0x43, 0x00, 0x00, 0x80, 0x3F, // f32.const 1.0
        0x44, 0x00, 0x00, 0x00, 0x00, 0x00, 0x00, 0xF0, 0x3F, // f64.const 1.0
        0x3F, 0x00, 0x40, 0x00, // memory.size, memory.grow
        0xD0, 0x70, 0xD1, 0xD2, 0x03, // ref.null, ref.is_null, ref.func
        0x1B, 0x1C, 0x01, 0x7F, // select, select t
        0x6A, 0xA7, 0xC4, // i32.add, i32.wrap_i64, i64.extend32_s
        0x0B,
    ];
    let (body, end) = parse_block(&code, 0).unwrap();
    assert_eq!(end, code.len());
    assert_eq!(
        body,
        vec![
            Instruction::Br { label_index: 1 },
            Instruction::BrIf { label_index: 2 },
            Instruction::BrTable { label_indexes: vec![0, 1, 3] },
            Instruction::Call { function_index: 128 },
            Instruction::CallIndirect { table_index: 2, type_index: 5 },
            Instruction::LocalSet(3),
            Instruction::LocalTee(4),
            Instruction::GlobalGet(5),
            Instruction::GlobalSet(6),
            Instruction::TableGet(7),
            Instruction::TableSet(8),
            Instruction::I32Load(MemArg { align: 2, offset: 16 }),
            Instruction::I64Store32(MemArg { align: 0, offset: 255 }),
            Instruction::I64Const(-1),
            Instruction::F32Const(1.0f32.to_bits()),
            Instruction::F64Const(1.0f64.to_bits()),
            Instruction::MemorySize,
            Instruction::MemoryGrow,
            Instruction::RefNull,
            Instruction::RefIsNull,
            Instruction::RefFunc,
            Instruction::Select,
            Instruction::SelectValueType,
            Instruction::I32Add,
            Instruction::I32WrapI64,
            Instruction::I64Extend32S,
        ]
    );
}

#[test]
fn every_opcode_round_trips() {
    let mut known = 0;
    for byte in 0..=255u8 {
        if let Some(opcode) = Opcode::from_byte(byte) {
            assert_eq!(opcode.to_byte(), byte);
            known += 1;
            if let Some(instruction) = Instruction::plain(opcode) {
                assert_eq!(instruction.opcode_of(), opcode);
            }
        }
    }
    assert_eq!(known, 184);
    assert_eq!(Opcode::from_byte(0x6A), Some(Opcode::I32Add));
    assert_eq!(Opcode::from_byte(0x05), Some(Opcode::Else));
    assert_eq!(Opcode::from_byte(0x06), None);
    assert_eq!(Instruction::plain(Opcode::I32Add), Some(Instruction::I32Add));
    assert_eq!(Instruction::plain(Opcode::Block), None);
    assert_eq!(Instruction::plain(Opcode::End), None);
}

#[test]
fn tags_have_their_bytes() {
    assert_eq!(Type::from_byte(0x7F), Some(Type::I32));
    assert_eq!(Type::from_byte(0x7E), Some(Type::I64));
    assert_eq!(Type::from_byte(0x7D), Some(Type::F32));
    assert_eq!(Type::from_byte(0x7C), Some(Type::F64));
    assert_eq!(Type::from_byte(0x7B), Some(Type::V128));
    assert_eq!(Type::from_byte(0x70), Some(Type::FuncRef));
    assert_eq!(Type::from_byte(0x6F), Some(Type::ExternRef));
    assert_eq!(Type::from_byte(0x60), Some(Type::Function));
    assert_eq!(Type::from_byte(0x00), Some(Type::Const));
    assert_eq!(Type::from_byte(0x01), Some(Type::Var));
    assert_eq!(Type::from_byte(0x02), None);
    assert_eq!(Type::I32.to_byte(), 0x7F);
    assert_eq!(SectionId::from_byte(12), Some(SectionId::DataCount));
    assert_eq!(SectionId::from_byte(13), None);
    assert_eq!(SectionId::Code.to_byte(), 10);
    assert_eq!(ExportKind::from_byte(2), Some(ExportKind::Memory));
    assert_eq!(ExportKind::from_byte(4), None);
    assert_eq!(LimitKind::from_byte(1), Some(LimitKind::MinMax));
    assert_eq!(LimitKind::from_byte(2), None);
    assert_eq!(DataMode::from_byte(0), Some(DataMode::ActiveMemory0));
    assert_eq!(DataMode::from_byte(2), Some(DataMode::Active));
    assert_eq!(DataMode::from_byte(3), None);
}

#[test]
fn unsigned_leb128_values() {
    assert_eq!(read_u32(&[0x00], 0), Ok((0, 1)));
    assert_eq!(read_u32(&[0xE5, 0x8E, 0x26], 0), Ok((624485, 3)));
    assert_eq!(read_u32(&[0xFF, 0xFF, 0xFF, 0xFF, 0x0F], 0), Ok((u32::MAX, 5)));
    assert_eq!(read_u32(&[0x7F, 0xE5, 0x8E, 0x26], 1), Ok((624485, 4)));
    assert_eq!(read_u32(&[0x80, 0x00], 0), Ok((0, 2)));
    assert_eq!(
        read_u64(&[0xFF, 0xFF, 0xFF, 0xFF, 0xFF, 0xFF, 0xFF, 0xFF, 0xFF, 0x01], 0),
        Ok((u64::MAX, 10))
    );
}

#[test]
fn signed_leb128_values() {
    assert_eq!(read_i32(&[0x7F], 0), Ok((-1, 1)));
    assert_eq!(read_i32(&[0x41], 0), Ok((-63, 1)));
    assert_eq!(read_i32(&[0xC1, 0x00], 0), Ok((65, 2)));
    assert_eq!(read_i32(&[0xC0, 0xBB, 0x78], 0), Ok((-123456, 3)));
    assert_eq!(read_i32(&[0x80, 0x80, 0x80, 0x80, 0x78], 0), Ok((i32::MIN, 5)));
    assert_eq!(read_i32(&[0xFF, 0xFF, 0xFF, 0xFF, 0x07], 0), Ok((i32::MAX, 5)));
    assert_eq!(
        read_i64(&[0x80, 0x80, 0x80, 0x80, 0x80, 0x80, 0x80, 0x80, 0x80, 0x7F], 0),
        Ok((i64::MIN, 10))
    );
    assert_eq!(
        read_i64(&[0xFF, 0xFF, 0xFF, 0xFF, 0xFF, 0xFF, 0xFF, 0xFF, 0xFF, 0x00], 0),
        Ok((i64::MAX, 10))
    );
}

#[test]
fn leb128_that_does_not_end_is_rejected() {
    assert_eq!(read_u32(&[0x80, 0x80, 0x80, 0x80, 0x80, 0x00], 0), Err(ParsingError::Leb128));
    assert_eq!(read_u32(&[0xFF, 0xFF, 0xFF, 0xFF, 0x1F], 0), Err(ParsingError::Leb128));
    assert_eq!(read_u32(&[0x80, 0x80], 0), Err(ParsingError::Leb128));
    assert_eq!(read_u32(&[], 0), Err(ParsingError::Leb128));
    assert_eq!(
        read_u64(&[0x80, 0x80, 0x80, 0x80, 0x80, 0x80, 0x80, 0x80, 0x80, 0x80, 0x00], 0),
        Err(ParsingError::Leb128)
    );
    assert_eq!(
        read_u64(&[0xFF, 0xFF, 0xFF, 0xFF, 0xFF, 0xFF, 0xFF, 0xFF, 0xFF, 0x02], 0),
        Err(ParsingError::Leb128)
    );
    assert_eq!(read_i32(&[0x80, 0x80, 0x80, 0x80, 0x80, 0x00], 0), Err(ParsingError::Leb128));
    assert_eq!(read_i32(&[0x80, 0x80, 0x80, 0x80, 0x08], 0), Err(ParsingError::Leb128));
    assert_eq!(
        read_i64(&[0x80, 0x80, 0x80, 0x80, 0x80, 0x80, 0x80, 0x80, 0x80, 0x80, 0x00], 0),
        Err(ParsingError::Leb128)
    );
    assert_eq!(read_u32(&[0x00], 5), Err(ParsingError::Leb128));
    assert_eq!(
        Module::new(&module_of(&[&[0x01, 0x80, 0x80, 0x80, 0x80, 0x80, 0x00]])),
        Err(ParsingError::Leb128)
    );
}

#[test]
fn exact_reads() {
    assert_eq!(read_exact(&[1, 2, 3, 4], 1, 2), Ok((vec![2, 3], 3)));
    assert_eq!(read_exact(&[1, 2, 3, 4], 4, 0), Ok((vec![], 4)));
    assert_eq!(read_exact(&[1, 2, 3, 4], 3, 2), Err(ParsingError::UnexpectedEndOfInput));
}

#[test]
fn unknown_section_is_rejected() {
    assert_eq!(Module::new(&module_of(&[&[0x0D, 0x00]])), Err(ParsingError::UnknownSectionId(0x0D)));
}

#[test]
fn unknown_type_is_rejected() {
    assert_eq!(
        Module::new(&module_of(&[&[0x01, 0x05, 0x01, 0x60, 0x01, 0x7A, 0x00]])),
        Err(ParsingError::UnknownType(0x7A))
    );
    assert_eq!(
        Module::new(&module_of(&[&[0x01, 0x04, 0x01, 0x7F, 0x00, 0x00]])),
        Err(ParsingError::UnknownType(0x7F))
    );
}

#[test]
fn unknown_export_kind_is_rejected() {
    assert_eq!(
        Module::new(&module_of(&[&[0x07, 0x04, 0x01, 0x01, b'x', 0x04, 0x00]])),
        Err(ParsingError::UnknownExportKind(0x04))
    );
}

#[test]
fn unknown_opcode_is_rejected() {
    let code = |opcode: u8| {
        module_of(&[
            &[0x01, 0x04, 0x01, 0x60, 0x00, 0x00],
            &[0x03, 0x02, 0x01, 0x00],
            &[0x0A, 0x05, 0x01, 0x03, 0x00, opcode, 0x0B],
        ])
    };
    assert_eq!(Module::new(&code(0x06)), Err(ParsingError::UnknownOpcode(0x06)));
    assert_eq!(Module::new(&code(0xFF)), Err(ParsingError::UnknownOpcode(0xFF)));
    assert_eq!(Module::new(&code(0xFC)), Err(ParsingError::UnknownOpcode(0xFC)));
    assert!(Module::new(&code(0x01)).is_ok());
}

#[test]
fn unknown_limit_is_rejected() {
    assert_eq!(
        Module::new(&module_of(&[&[0x05, 0x03, 0x01, 0x02, 0x01]])),
        Err(ParsingError::UnknownLimit(0x02))
    );
}

#[test]
fn unknown_data_mode_is_rejected() {
    assert_eq!(
        Module::new(&module_of(&[&[0x05, 0x03, 0x01, 0x00, 0x01], &[0x0B, 0x02, 0x01, 0x03]])),
        Err(ParsingError::UnknownDataMode(0x03))
    );
}

#[test]
fn unsupported_data_mode_is_rejected() {
    assert_eq!(
        Module::new(&module_of(&[&[0x05, 0x03, 0x01, 0x00, 0x01], &[0x0B, 0x03, 0x01, 0x01, 0x00]])),
        Err(ParsingError::UnsupportedDataMode(DataMode::Passive))
    );
}

#[test]
fn data_without_memory_is_rejected() {
    assert_eq!(
        Module::new(&module_of(&[&[0x0B, 0x06, 0x01, 0x00, 0x41, 0x00, 0x0B, 0x00]])),
        Err(ParsingError::DataWithoutMemory)
    );
}

#[test]
fn data_offset_must_be_a_constant() {
    assert_eq!(
        Module::new(&module_of(&[
            &[0x05, 0x03, 0x01, 0x00, 0x01],
            &[0x0B, 0x06, 0x01, 0x00, 0x42, 0x00, 0x0B, 0x00],
        ])),
        Err(ParsingError::ExpectedOpcode(Opcode::I32Const))
    );
    assert_eq!(
        Module::new(&module_of(&[&[0x05, 0x03, 0x01, 0x00, 0x01], &[0x0B, 0x04, 0x01, 0x00, 0x0B, 0x00]])),
        Err(ParsingError::ExpectedOpcode(Opcode::I32Const))
    );
}

#[test]
fn export_of_an_import_is_out_of_range() {
    let mut import = vec![0x02, 0x0B, 0x01, 0x03];
    import.extend_from_slice(b"env");
    import.push(0x03);
    import.extend_from_slice(b"put");
    import.extend_from_slice(&[0x00, 0x01]);
    let bytes = module_of(&[
        &TYPES,
        &import,
        &[0x03, 0x02, 0x01, 0x01],
        &[0x07, 0x05, 0x01, 0x01, b'f', 0x00, 0x00],
    ]);
    assert_eq!(
        Module::new(&bytes),
        Err(ParsingError::WasmFunctionOutOfRange { index: 0, wasm_len: 1, imports_len: 1, total_len: 2 })
    );
}

#[test]
fn code_without_function_is_out_of_range() {
    let bytes = module_of(&[
        &TYPES,
        &[0x03, 0x02, 0x01, 0x01],
        &[0x0A, 0x07, 0x02, 0x02, 0x00, 0x0B, 0x02, 0x00, 0x0B],
    ]);
    assert_eq!(
        Module::new(&bytes),
        Err(ParsingError::WasmFunctionOutOfRange { index: 1, wasm_len: 1, imports_len: 0, total_len: 1 })
    );
}

#[test]
fn signature_index_out_of_range_is_rejected() {
    assert_eq!(
        Module::new(&module_of(&[&TYPES, &[0x03, 0x02, 0x01, 0x02]])),
        Err(ParsingError::SignatureIndexOutOfRange { index: 2, len: 2 })
    );
}

#[test]
fn import_of_a_memory_is_rejected() {
    let bytes = module_of(&[&TYPES, &[0x02, 0x07, 0x01, 0x01, b'a', 0x01, b'b', 0x02, 0x00]]);
    assert_eq!(Module::new(&bytes), Err(ParsingError::UnsupportedImportKind(ExportKind::Memory)));
}

#[test]
fn second_memory_is_rejected() {
    assert_eq!(
        Module::new(&module_of(&[&[0x05, 0x05, 0x02, 0x00, 0x01, 0x00, 0x01]])),
        Err(ParsingError::MultipleMemories(2))
    );
    assert_eq!(
        Module::new(&module_of(&[&[0x05, 0x03, 0x01, 0x00, 0x01], &[0x05, 0x03, 0x01, 0x00, 0x01]])),
        Err(ParsingError::MultipleMemories(2))
    );
}

#[test]
fn export_of_a_missing_memory_is_rejected() {
    assert_eq!(
        Module::new(&module_of(&[&[0x07, 0x04, 0x01, 0x01, b'm', 0x02, 0x00]])),
        Err(ParsingError::MemoryIndexOutOfRange(0))
    );
    assert_eq!(
        Module::new(&module_of(&[&[0x05, 0x03, 0x01, 0x00, 0x01], &[0x07, 0x04, 0x01, 0x01, b'm', 0x02, 0x01]])),
        Err(ParsingError::MemoryIndexOutOfRange(1))
    );
}

#[test]
fn name_must_be_utf8() {
    assert_eq!(
        Module::new(&module_of(&[&[0x07, 0x05, 0x01, 0x02, 0xC3, 0x28, 0x00, 0x00]])),
        Err(ParsingError::Utf8)
    );
    let bytes = module_of(&[
        &[0x05, 0x03, 0x01, 0x00, 0x01],
        &[0x07, 0x07, 0x01, 0x04, 0xF0, 0x9F, 0x98, 0x80, 0x02, 0x00],
    ]);
    assert_eq!(Module::new(&bytes).unwrap().memory_blueprint.unwrap().export_name, Some("\u{1F600}".to_owned()));
}

#[test]
fn truncated_section_ends_early() {
    assert_eq!(
        Module::new(&module_of(&[&[0x01, 0x04, 0x01, 0x60]])),
        Err(ParsingError::Leb128)
    );
    assert_eq!(
        Module::new(&module_of(&[&[0x01, 0x04, 0x01]])),
        Err(ParsingError::UnexpectedEndOfInput)
    );
    assert_eq!(
        Module::new(&module_of(&[
            &[0x01, 0x04, 0x01, 0x60, 0x00, 0x00],
            &[0x03, 0x02, 0x01, 0x00],
            &[0x0A, 0x05, 0x01, 0x03, 0x00, 0x01],
        ])),
        Err(ParsingError::UnexpectedEndOfInput)
    );
}

#[test]
fn label_must_fit_a_byte() {
    assert_eq!(parse_block(&[0x0C, 0xFF, 0x01, 0x0B], 0), Ok((vec![Instruction::Br { label_index: 255 }], 4)));
    assert_eq!(parse_block(&[0x0C, 0x80, 0x02, 0x0B], 0), Err(ParsingError::Leb128));
}
