//! The sections of a module as mathematical functions on the state of the
//! decoder.

use vstd::prelude::*;
use vstd::utf8::{decode_utf8, valid_utf8};
use crate::exec::instruction::InstructionView;
use crate::exec::types::{
    ExternFunctionView,
    FunctionsView,
    IdentifierView,
    SignatureView,
    WasmFunctionView,
};
use crate::parse::error::ParsingError;
use crate::parse::grammar::{
    spec_body,
    spec_byte,
    spec_index,
    spec_take,
    spec_type,
    spec_type_vector,
};
use crate::parse::module::{
    DataSegmentView,
    MemoryBlueprintView,
    ModuleView,
    PageLimit,
    UNBOUNDED_PAGES,
};
use crate::parse::opcode::Opcode;
use crate::parse::types::{DataMode, ExportKind, LimitKind, SectionId, Type};
use crate::parse::varint::Decoded;

verus! {

/// What the decoder has gathered so far: the signatures of the type section
/// and the module under construction.
pub struct DecoderState {
    pub types: Seq<SignatureView>,
    pub module: ModuleView,
}

impl DecoderState {
    /// The state before the first section.
    pub open spec fn empty() -> DecoderState {
        DecoderState { types: Seq::empty(), module: ModuleView::empty() }
    }

    /// The number of functions in the table.
    pub open spec fn total_functions(self) -> nat {
        self.module.functions.imports.len() + self.module.functions.wasm.len()
    }

    /// This state with `function` appended to the module's own functions.
    pub open spec fn with_wasm(self, function: WasmFunctionView) -> DecoderState {
        DecoderState {
            module: ModuleView {
                functions: FunctionsView { wasm: self.module.functions.wasm.push(function), ..self.module.functions },
                ..self.module
            },
            ..self
        }
    }

    /// This state with the module's own function at `position` replaced.
    pub open spec fn set_wasm(self, position: int, function: WasmFunctionView) -> DecoderState {
        DecoderState {
            module: ModuleView {
                functions: FunctionsView {
                    wasm: self.module.functions.wasm.update(position, function),
                    ..self.module.functions
                },
                ..self.module
            },
            ..self
        }
    }

    /// This state with `import` appended to the imports.
    pub open spec fn with_import(self, import: ExternFunctionView) -> DecoderState {
        DecoderState {
            module: ModuleView {
                functions: FunctionsView {
                    imports: self.module.functions.imports.push(import),
                    ..self.module.functions
                },
                ..self.module
            },
            ..self
        }
    }

    /// This state with the blueprint of the memory replaced.
    pub open spec fn with_memory(self, memory: MemoryBlueprintView) -> DecoderState {
        DecoderState { module: ModuleView { memory_blueprint: Some(memory), ..self.module }, ..self }
    }
}

/// A name at `pos`: a length, then that many bytes of UTF-8.
pub open spec fn spec_name(bytes: Seq<u8>, pos: int) -> Decoded<Seq<char>> {
    match spec_index(bytes, pos) {
        Ok((length, next)) => match spec_take(bytes, next, length as int) {
            Ok((raw, end)) => if valid_utf8(raw) {
                Ok((decode_utf8(raw), end))
            } else {
                Err(ParsingError::Utf8)
            },
            Err(e) => Err(e),
        },
        Err(e) => Err(e),
    }
}

/// A function type at `pos`: the byte `0x60`, the parameter types and the
/// result types.
pub open spec fn spec_function_type(bytes: Seq<u8>, pos: int) -> Decoded<SignatureView> {
    match spec_byte(bytes, pos) {
        Ok((tag, next)) => if tag != 0x60 {
            Err(ParsingError::UnknownType(tag))
        } else {
            match spec_type_vector(bytes, next) {
                Ok((params, middle)) => match spec_type_vector(bytes, middle) {
                    Ok((results, end)) => Ok((SignatureView { params, results }, end)),
                    Err(e) => Err(e),
                },
                Err(e) => Err(e),
            }
        },
        Err(e) => Err(e),
    }
}

/// `n` function types from `pos` on, appended to `acc`.
pub open spec fn spec_function_types(
    bytes: Seq<u8>,
    pos: int,
    n: nat,
    acc: Seq<SignatureView>,
) -> Decoded<Seq<SignatureView>>
    decreases n,
{
    if n == 0 {
        Ok((acc, pos))
    } else {
        match spec_function_type(bytes, pos) {
            Ok((signature, next)) => spec_function_types(
                bytes,
                next,
                (n - 1) as nat,
                acc.push(signature),
            ),
            Err(e) => Err(e),
        }
    }
}

/// The type section: a count, then that many function types, which replace
/// the signatures of the state.
pub open spec fn spec_type_section(bytes: Seq<u8>, pos: int, state: DecoderState) -> Decoded<
    DecoderState,
> {
    match spec_index(bytes, pos) {
        Ok((n, next)) => match spec_function_types(bytes, next, n as nat, Seq::empty()) {
            Ok((types, end)) => Ok((DecoderState { types, ..state }, end)),
            Err(e) => Err(e),
        },
        Err(e) => Err(e),
    }
}

/// The signature with the index `index`, or the error for an index that
/// names none.
pub open spec fn spec_signature(state: DecoderState, index: usize) -> Result<
    SignatureView,
    ParsingError,
> {
    if index < state.types.len() {
        Ok(state.types[index as int])
    } else {
        Err(ParsingError::SignatureIndexOutOfRange { index, len: state.types.len() as usize })
    }
}

/// One entry of the function section: a signature index.  The state gains a
/// function with that signature, without locals and with an empty body.
pub open spec fn spec_function_entry(bytes: Seq<u8>, pos: int, state: DecoderState) -> Decoded<
    DecoderState,
> {
    match spec_index(bytes, pos) {
        Ok((index, end)) => match spec_signature(state, index) {
            Ok(signature) => if state.total_functions() >= usize::MAX {
                Err(ParsingError::TooManyFunctions)
            } else {
                Ok(
                    (
                        state.with_wasm(
                            WasmFunctionView {
                                index: state.total_functions() as usize,
                                export_name: None,
                                signature,
                                locals: Seq::empty(),
                                body: Seq::empty(),
                            },
                        ),
                        end,
                    ),
                )
            },
            Err(e) => Err(e),
        },
        Err(e) => Err(e),
    }
}

/// `n` entries of the function section from `pos` on.
pub open spec fn spec_function_entries(
    bytes: Seq<u8>,
    pos: int,
    n: nat,
    state: DecoderState,
) -> Decoded<DecoderState>
    decreases n,
{
    if n == 0 {
        Ok((state, pos))
    } else {
        match spec_function_entry(bytes, pos, state) {
            Ok((next_state, next)) => spec_function_entries(bytes, next, (n - 1) as nat, next_state),
            Err(e) => Err(e),
        }
    }
}

/// The function section: a count, then that many entries.
pub open spec fn spec_function_section(bytes: Seq<u8>, pos: int, state: DecoderState) -> Decoded<
    DecoderState,
> {
    match spec_index(bytes, pos) {
        Ok((n, next)) => spec_function_entries(bytes, next, n as nat, state),
        Err(e) => Err(e),
    }
}

/// An export kind at `pos`.
pub open spec fn spec_export_kind(bytes: Seq<u8>, pos: int) -> Decoded<ExportKind> {
    match spec_byte(bytes, pos) {
        Ok((b, end)) => match ExportKind::decode(b) {
            Some(kind) => Ok((kind, end)),
            None => Err(ParsingError::UnknownExportKind(b)),
        },
        Err(e) => Err(e),
    }
}

/// One entry of the import section: the module name, the field name, the
/// kind and a signature index.  Only functions can be imported; the state
/// gains the import.
pub open spec fn spec_import_entry(bytes: Seq<u8>, pos: int, state: DecoderState) -> Decoded<
    DecoderState,
> {
    match spec_name(bytes, pos) {
        Ok((module, next1)) => match spec_name(bytes, next1) {
            Ok((field, next2)) => match spec_export_kind(bytes, next2) {
                Ok((kind, next3)) => match spec_index(bytes, next3) {
                    Ok((index, end)) => if kind != ExportKind::Function {
                        Err(ParsingError::UnsupportedImportKind(kind))
                    } else {
                        match spec_signature(state, index) {
                            Ok(signature) => if state.total_functions() >= usize::MAX {
                                Err(ParsingError::TooManyFunctions)
                            } else {
                                Ok(
                                    (
                                        state.with_import(
                                            ExternFunctionView {
                                                name: IdentifierView { module, field },
                                                signature,
                                            },
                                        ),
                                        end,
                                    ),
                                )
                            },
                            Err(e) => Err(e),
                        }
                    },
                    Err(e) => Err(e),
                },
                Err(e) => Err(e),
            },
            Err(e) => Err(e),
        },
        Err(e) => Err(e),
    }
}

/// `n` entries of the import section from `pos` on.
pub open spec fn spec_import_entries(
    bytes: Seq<u8>,
    pos: int,
    n: nat,
    state: DecoderState,
) -> Decoded<DecoderState>
    decreases n,
{
    if n == 0 {
        Ok((state, pos))
    } else {
        match spec_import_entry(bytes, pos, state) {
            Ok((next_state, next)) => spec_import_entries(bytes, next, (n - 1) as nat, next_state),
            Err(e) => Err(e),
        }
    }
}

/// The import section: a count, then that many entries.
pub open spec fn spec_import_section(bytes: Seq<u8>, pos: int, state: DecoderState) -> Decoded<
    DecoderState,
> {
    match spec_index(bytes, pos) {
        Ok((n, next)) => spec_import_entries(bytes, next, n as nat, state),
        Err(e) => Err(e),
    }
}

/// The limits of a memory at `pos`: the kind, the minimum and, for the kind
/// `MinMax`, the maximum.  Without a maximum the limit ends at 2^32 pages.
pub open spec fn spec_limits(bytes: Seq<u8>, pos: int) -> Decoded<PageLimit> {
    match spec_byte(bytes, pos) {
        Ok((b, next1)) => match LimitKind::decode(b) {
            Some(kind) => match spec_index(bytes, next1) {
                Ok((min, next2)) => if kind == LimitKind::Min {
                    Ok((PageLimit { start: min as u64, end: UNBOUNDED_PAGES }, next2))
                } else {
                    match spec_index(bytes, next2) {
                        Ok((max, end)) => Ok(
                            (PageLimit { start: min as u64, end: max as u64 }, end),
                        ),
                        Err(e) => Err(e),
                    }
                },
                Err(e) => Err(e),
            },
            None => Err(ParsingError::UnknownLimit(b)),
        },
        Err(e) => Err(e),
    }
}

/// The memory section: a count, which is 0 or 1, and the limits of the
/// memory.  A module has at most one memory.
pub open spec fn spec_memory_section(bytes: Seq<u8>, pos: int, state: DecoderState) -> Decoded<
    DecoderState,
> {
    match spec_index(bytes, pos) {
        Ok((n, next)) => if n > 1 {
            Err(ParsingError::MultipleMemories(n))
        } else if n == 0 {
            Ok((state, next))
        } else if state.module.memory_blueprint is Some {
            Err(ParsingError::MultipleMemories(2))
        } else {
            match spec_limits(bytes, next) {
                Ok((page_limit, end)) => Ok(
                    (
                        state.with_memory(
                            MemoryBlueprintView { page_limit, export_name: None, init: Seq::empty() },
                        ),
                        end,
                    ),
                ),
                Err(e) => Err(e),
            }
        },
        Err(e) => Err(e),
    }
}

/// The state after the export of `index` under `name`: a function or the
/// memory gets the name; a table or a global changes nothing.
pub open spec fn spec_export(
    state: DecoderState,
    name: Seq<char>,
    kind: ExportKind,
    index: usize,
) -> Result<
    DecoderState,
    ParsingError,
> {
    match kind {
        ExportKind::Function => match state.module.functions.wasm_position(index) {
            Ok(position) => Ok(
                state.set_wasm(
                    position,
                    WasmFunctionView {
                        export_name: Some(name),
                        ..state.module.functions.wasm[position]
                    },
                ),
            ),
            Err(e) => Err(e),
        },
        ExportKind::Memory => match state.module.memory_blueprint {
            Some(memory) => if index == 0 {
                Ok(state.with_memory(MemoryBlueprintView { export_name: Some(name), ..memory }))
            } else {
                Err(ParsingError::MemoryIndexOutOfRange(index))
            },
            None => Err(ParsingError::MemoryIndexOutOfRange(index)),
        },
        _ => Ok(state),
    }
}

/// One entry of the export section: the name, the kind and an index.
pub open spec fn spec_export_entry(bytes: Seq<u8>, pos: int, state: DecoderState) -> Decoded<
    DecoderState,
> {
    match spec_name(bytes, pos) {
        Ok((name, next1)) => match spec_export_kind(bytes, next1) {
            Ok((kind, next2)) => match spec_index(bytes, next2) {
                Ok((index, end)) => match spec_export(state, name, kind, index) {
                    Ok(next_state) => Ok((next_state, end)),
                    Err(e) => Err(e),
                },
                Err(e) => Err(e),
            },
            Err(e) => Err(e),
        },
        Err(e) => Err(e),
    }
}

/// `n` entries of the export section from `pos` on.
pub open spec fn spec_export_entries(
    bytes: Seq<u8>,
    pos: int,
    n: nat,
    state: DecoderState,
) -> Decoded<DecoderState>
    decreases n,
{
    if n == 0 {
        Ok((state, pos))
    } else {
        match spec_export_entry(bytes, pos, state) {
            Ok((next_state, next)) => spec_export_entries(bytes, next, (n - 1) as nat, next_state),
            Err(e) => Err(e),
        }
    }
}

/// The export section: a count, then that many entries.
pub open spec fn spec_export_section(bytes: Seq<u8>, pos: int, state: DecoderState) -> Decoded<
    DecoderState,
> {
    match spec_index(bytes, pos) {
        Ok((n, next)) => spec_export_entries(bytes, next, n as nat, state),
        Err(e) => Err(e),
    }
}

/// `count` copies of `t`.
pub open spec fn repeated(t: Type, count: nat) -> Seq<Type> {
    Seq::new(count, |i: int| t)
}

/// `n` groups of locals from `pos` on, appended to `acc`: each group is a
/// count and a type, and stands for that many locals of the type.
pub open spec fn spec_locals(bytes: Seq<u8>, pos: int, n: nat, acc: Seq<Type>) -> Decoded<Seq<Type>>
    decreases n,
{
    if n == 0 {
        Ok((acc, pos))
    } else {
        match spec_index(bytes, pos) {
            Ok((count, next1)) => match spec_type(bytes, next1) {
                Ok((t, next)) => spec_locals(
                    bytes,
                    next,
                    (n - 1) as nat,
                    acc + repeated(t, count as nat),
                ),
                Err(e) => Err(e),
            },
            Err(e) => Err(e),
        }
    }
}

/// The code of one function at `pos`: its size, which is not used, the
/// groups of locals and the body.
pub open spec fn spec_function_code(bytes: Seq<u8>, pos: int) -> Decoded<
    (Seq<Type>, Seq<InstructionView>),
> {
    match spec_index(bytes, pos) {
        Ok((_, next1)) => match spec_index(bytes, next1) {
            Ok((groups, next2)) => match spec_locals(bytes, next2, groups as nat, Seq::empty()) {
                Ok((locals, next3)) => match spec_body(bytes, next3) {
                    Ok((body, end)) => Ok(((locals, body), end)),
                    Err(e) => Err(e),
                },
                Err(e) => Err(e),
            },
            Err(e) => Err(e),
        },
        Err(e) => Err(e),
    }
}

/// The entries of the code section from `pos` on, from the entry `i` up to
/// the entry `n`.  The entry `i` gives locals and body to the `i`-th function
/// that the module defines.
pub open spec fn spec_code_entries(
    bytes: Seq<u8>,
    pos: int,
    i: nat,
    n: nat,
    state: DecoderState,
) -> Decoded<DecoderState>
    decreases n - i,
{
    if i >= n {
        Ok((state, pos))
    } else if i >= state.module.functions.wasm.len() {
        Err(
            ParsingError::WasmFunctionOutOfRange {
                index: state.total_functions() as usize,
                wasm_len: state.module.functions.wasm.len() as usize,
                imports_len: state.module.functions.imports.len() as usize,
                total_len: state.total_functions() as usize,
            },
        )
    } else {
        match spec_function_code(bytes, pos) {
            Ok(((locals, body), next)) => spec_code_entries(
                bytes,
                next,
                i + 1,
                n,
                state.set_wasm(
                    i as int,
                    WasmFunctionView { locals, body, ..state.module.functions.wasm[i as int] },
                ),
            ),
            Err(e) => Err(e),
        }
    }
}

/// The code section: a count, then that many entries.
pub open spec fn spec_code_section(bytes: Seq<u8>, pos: int, state: DecoderState) -> Decoded<
    DecoderState,
> {
    match spec_index(bytes, pos) {
        Ok((n, next)) => spec_code_entries(bytes, next, 0, n as nat, state),
        Err(e) => Err(e),
    }
}

/// The address that a constant expression gives: the expression is one
/// `I32Const`, and its value is taken as unsigned.
pub open spec fn spec_offset(expression: Seq<InstructionView>) -> Result<usize, ParsingError> {
    if expression.len() == 1 && expression[0] is Simple && expression[0]->Simple_0 is I32Const {
        let value = expression[0]->Simple_0->I32Const_0;
        Ok(
            if value >= 0 {
                value as usize
            } else {
                (value + 0x1_0000_0000) as usize
            },
        )
    } else {
        Err(ParsingError::ExpectedOpcode(Opcode::I32Const))
    }
}

/// One data segment at `pos`: the mode, which must be active in memory 0, the
/// constant expression for the address, a length and that many bytes.  The
/// blueprint of the memory gains the segment.
pub open spec fn spec_data_entry(bytes: Seq<u8>, pos: int, state: DecoderState) -> Decoded<
    DecoderState,
> {
    match spec_byte(bytes, pos) {
        Ok((b, next1)) => match DataMode::decode(b) {
            Some(mode) => if mode != DataMode::ActiveMemory0 {
                Err(ParsingError::UnsupportedDataMode(mode))
            } else {
                match state.module.memory_blueprint {
                    Some(memory) => match spec_body(bytes, next1) {
                        Ok((expression, next2)) => match spec_offset(expression) {
                            Ok(addr) => match spec_index(bytes, next2) {
                                Ok((length, next3)) => match spec_take(bytes, next3, length as int) {
                                    Ok((data, end)) => Ok(
                                        (
                                            state.with_memory(
                                                MemoryBlueprintView {
                                                    init: memory.init.push(
                                                        DataSegmentView { addr, data },
                                                    ),
                                                    ..memory
                                                },
                                            ),
                                            end,
                                        ),
                                    ),
                                    Err(e) => Err(e),
                                },
                                Err(e) => Err(e),
                            },
                            Err(e) => Err(e),
                        },
                        Err(e) => Err(e),
                    },
                    None => Err(ParsingError::DataWithoutMemory),
                }
            },
            None => Err(ParsingError::UnknownDataMode(b)),
        },
        Err(e) => Err(e),
    }
}

/// `n` data segments from `pos` on.
pub open spec fn spec_data_entries(
    bytes: Seq<u8>,
    pos: int,
    n: nat,
    state: DecoderState,
) -> Decoded<DecoderState>
    decreases n,
{
    if n == 0 {
        Ok((state, pos))
    } else {
        match spec_data_entry(bytes, pos, state) {
            Ok((next_state, next)) => spec_data_entries(bytes, next, (n - 1) as nat, next_state),
            Err(e) => Err(e),
        }
    }
}

/// The data section: a count, then that many segments.
pub open spec fn spec_data_section(bytes: Seq<u8>, pos: int, state: DecoderState) -> Decoded<
    DecoderState,
> {
    match spec_index(bytes, pos) {
        Ok((n, next)) => spec_data_entries(bytes, next, n as nat, state),
        Err(e) => Err(e),
    }
}

/// A section whose content the decoder passes over: `size` bytes.
pub open spec fn spec_skipped_section(
    bytes: Seq<u8>,
    pos: int,
    size: usize,
    state: DecoderState,
) -> Decoded<
    DecoderState,
> {
    match spec_take(bytes, pos, size as int) {
        Ok((_, end)) => Ok((state, end)),
        Err(e) => Err(e),
    }
}

/// One section at `pos`: the identifier, the size and the content.  The
/// size says how much to pass over in a section that is not decoded; a
/// decoded section ends where its content ends.
pub open spec fn spec_section(bytes: Seq<u8>, pos: int, state: DecoderState) -> Decoded<
    DecoderState,
> {
    match spec_byte(bytes, pos) {
        Ok((b, next1)) => match SectionId::decode(b) {
            Some(id) => match spec_index(bytes, next1) {
                Ok((size, next2)) => match id {
                    SectionId::Type => spec_type_section(bytes, next2, state),
                    SectionId::Import => spec_import_section(bytes, next2, state),
                    SectionId::Function => spec_function_section(bytes, next2, state),
                    SectionId::Memory => spec_memory_section(bytes, next2, state),
                    SectionId::Export => spec_export_section(bytes, next2, state),
                    SectionId::Code => spec_code_section(bytes, next2, state),
                    SectionId::Data => spec_data_section(bytes, next2, state),
                    _ => spec_skipped_section(bytes, next2, size, state),
                },
                Err(e) => Err(e),
            },
            None => Err(ParsingError::UnknownSectionId(b)),
        },
        Err(e) => Err(e),
    }
}

/// The sections from `pos` to the end of the bytes.
pub open spec fn spec_sections(bytes: Seq<u8>, pos: int, state: DecoderState) -> Result<
    DecoderState,
    ParsingError,
>
    decreases bytes.len() - pos,
{
    if pos >= bytes.len() {
        Ok(state)
    } else {
        match spec_section(bytes, pos, state) {
            Ok((next_state, next)) => if pos < next <= bytes.len() {
                spec_sections(bytes, next, next_state)
            } else {
                Err(ParsingError::UnexpectedEndOfInput)
            },
            Err(e) => Err(e),
        }
    }
}

/// The header: the magic constant `00 61 73 6D` and the version
/// `01 00 00 00`.  Gives the position behind it.
pub open spec fn spec_header(bytes: Seq<u8>) -> Result<int, ParsingError> {
    if bytes.len() < 4 || bytes[0] != 0x00 || bytes[1] != 0x61 || bytes[2] != 0x73 || bytes[3]
        != 0x6D {
        Err(ParsingError::NotAWasmModule)
    } else if bytes.len() < 8 {
        Err(ParsingError::UnexpectedEndOfInput)
    } else if bytes[4] != 0x01 || bytes[5] != 0x00 || bytes[6] != 0x00 || bytes[7] != 0x00 {
        Err(ParsingError::IllegalVersion([bytes[4], bytes[5], bytes[6], bytes[7]]))
    } else {
        Ok(8)
    }
}

/// The module that the bytes encode, or the error that decoding ends in.
pub open spec fn spec_module(bytes: Seq<u8>) -> Result<ModuleView, ParsingError> {
    match spec_header(bytes) {
        Ok(pos) => match spec_sections(bytes, pos, DecoderState::empty()) {
            Ok(state) => Ok(state.module),
            Err(e) => Err(e),
        },
        Err(e) => Err(e),
    }
}

} // verus!
