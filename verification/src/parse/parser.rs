//! The decoder: from the bytes of a module to the `Module`.

use vstd::prelude::*;
use vstd::utf8::{decode_utf8, valid_utf8};
use crate::exec::instruction::{code_model, instruction_model, Instruction, InstructionView};
use crate::exec::types::{
    ExternFunction,
    FunctionSignature,
    Functions,
    Identifier,
    WasmFunction,
    WasmFunctionView,
};
use crate::parse::error::ParsingError;
use crate::parse::module::{DataSegment, MemoryBlueprint, Module, PageLimit, UNBOUNDED_PAGES};
use crate::parse::opcode::Opcode;
use crate::parse::sections::{
    repeated,
    spec_code_entries,
    spec_code_section,
    spec_data_entries,
    spec_data_entry,
    spec_data_section,
    spec_export,
    spec_export_entries,
    spec_export_entry,
    spec_export_kind,
    spec_export_section,
    spec_function_code,
    spec_function_entries,
    spec_function_entry,
    spec_function_section,
    spec_function_type,
    spec_function_types,
    spec_header,
    spec_import_entries,
    spec_import_entry,
    spec_import_section,
    spec_limits,
    spec_locals,
    spec_memory_section,
    spec_module,
    spec_name,
    spec_offset,
    spec_section,
    spec_sections,
    spec_signature,
    spec_skipped_section,
    spec_type_section,
    DecoderState,
};
use crate::parse::stream::{
    decoded_seq,
    parse_block,
    read_byte,
    read_exact,
    read_index,
    read_type,
    read_type_vector,
};
use crate::parse::types::{DataMode, ExportKind, LimitKind, SectionId, Type};
use crate::parse::varint::{decoded, Decoded};

verus! {

/// The error of `String::from_utf8`; only its presence is used.
#[verifier::external_type_specification]
#[verifier::external_body]
pub struct ExFromUtf8Error(std::string::FromUtf8Error);

/// `String::from_utf8`.  The contract claims that the call succeeds exactly
/// on valid UTF-8, and that the string then holds the characters that the
/// bytes encode.
#[verifier::external_body]
fn string_from_utf8(bytes: Vec<u8>) -> (r: Result<String, std::string::FromUtf8Error>)
    ensures
        match r {
            Ok(s) => valid_utf8(bytes@) && s@ == decode_utf8(bytes@),
            Err(_) => !valid_utf8(bytes@),
        },
{
    String::from_utf8(bytes)
}

/// Tells that `r` is a value whose model is what `d` prescribes.
pub open spec fn decoded_view<T: DeepView>(
    r: Result<(T, usize), ParsingError>,
    d: Decoded<T::V>,
) -> bool {
    match (r, d) {
        (Ok((value, end)), Ok((model, model_end))) => value.deep_view() == model && end
            == model_end,
        (Err(e), Err(model)) => e == model,
        _ => false,
    }
}

/// Tells that `r` is the outcome of decoding `bytes`: a module whose model
/// is the module that the bytes encode, or the error that decoding ends in.
pub open spec fn decodes(bytes: Seq<u8>, r: Result<Module, ParsingError>) -> bool {
    match spec_module(bytes) {
        Ok(model) => r is Ok && r->Ok_0.deep_view() == model,
        Err(e) => r == Err::<Module, ParsingError>(e),
    }
}

/// Decoding is a function of the bytes: two outcomes of decoding the same
/// bytes are the same error, or two modules with the same model.
pub proof fn lemma_decoding_is_a_function(
    bytes: Seq<u8>,
    first: Result<Module, ParsingError>,
    second: Result<Module, ParsingError>,
)
    requires
        decodes(bytes, first),
        decodes(bytes, second),
    ensures
        match (first, second) {
            (Ok(a), Ok(b)) => a.deep_view() == b.deep_view(),
            (Err(a), Err(b)) => a == b,
            _ => false,
        },
{
}

/// Tells that a step of the decoder ended as `d` prescribes: in the state
/// `post` and at the position `r`, or with the error.
pub open spec fn advanced(
    post: DecoderState,
    r: Result<usize, ParsingError>,
    d: Decoded<DecoderState>,
) -> bool {
    match (r, d) {
        (Ok(end), Ok((model, model_end))) => post == model && end == model_end,
        (Err(e), Err(model)) => e == model,
        _ => false,
    }
}

/// Reads a name: a length, then that many bytes of UTF-8.
pub fn read_string(bytes: &[u8], pos: usize) -> (r: Result<(String, usize), ParsingError>)
    ensures
        decoded_view(r, spec_name(bytes@, pos as int)),
        r matches Ok((_, end)) ==> pos < end <= bytes@.len(),
{
    let (length, next) = read_index(bytes, pos)?;
    let (raw, end) = read_exact(bytes, next, length)?;
    match string_from_utf8(raw) {
        Ok(name) => Ok((name, end)),
        Err(_) => Err(ParsingError::Utf8),
    }
}

/// Decodes a function type.
pub fn parse_function_type(bytes: &[u8], pos: usize) -> (r: Result<
    (FunctionSignature, usize),
    ParsingError,
>)
    ensures
        decoded_view(r, spec_function_type(bytes@, pos as int)),
        r matches Ok((_, end)) ==> pos < end <= bytes@.len(),
{
    let (tag, next) = read_byte(bytes, pos)?;
    if tag != 0x60 {
        return Err(ParsingError::UnknownType(tag));
    }
    let (params, middle) = read_type_vector(bytes, next)?;
    let (results, end) = read_type_vector(bytes, middle)?;
    Ok((FunctionSignature { params, results }, end))
}

/// Decodes the limits of a memory.
pub fn parse_limits(bytes: &[u8], pos: usize) -> (r: Result<(PageLimit, usize), ParsingError>)
    ensures
        decoded(r, spec_limits(bytes@, pos as int)),
        r matches Ok((_, end)) ==> pos < end <= bytes@.len(),
{
    let (b, next1) = read_byte(bytes, pos)?;
    let kind = match LimitKind::from_byte(b) {
        Some(kind) => kind,
        None => {
            return Err(ParsingError::UnknownLimit(b));
        },
    };
    let (min, next2) = read_index(bytes, next1)?;
    match kind {
        LimitKind::Min => Ok((PageLimit { start: min as u64, end: UNBOUNDED_PAGES }, next2)),
        LimitKind::MinMax => match read_index(bytes, next2) {
            Ok((max, end)) => Ok((PageLimit { start: min as u64, end: max as u64 }, end)),
            Err(e) => Err(e),
        },
    }
}

/// Decodes an export kind.
pub fn read_export_kind(bytes: &[u8], pos: usize) -> (r: Result<(ExportKind, usize), ParsingError>)
    ensures
        decoded(r, spec_export_kind(bytes@, pos as int)),
        r matches Ok((_, end)) ==> pos < end <= bytes@.len(),
{
    match read_byte(bytes, pos) {
        Ok((b, end)) => match ExportKind::from_byte(b) {
            Some(kind) => Ok((kind, end)),
            None => Err(ParsingError::UnknownExportKind(b)),
        },
        Err(e) => Err(e),
    }
}

/// Decodes `n` groups of locals and flattens them.
pub fn parse_locals(bytes: &[u8], pos: usize, n: usize) -> (r: Result<
    (Vec<Type>, usize),
    ParsingError,
>)
    ensures
        decoded_seq(r, spec_locals(bytes@, pos as int, n as nat, Seq::empty())),
        r matches Ok((_, end)) ==> pos <= end && (pos <= bytes@.len() ==> end <= bytes@.len()),
{
    let mut locals: Vec<Type> = Vec::new();
    let mut at: usize = pos;
    let mut i: usize = 0;
    while i < n
        invariant
            i <= n,
            pos <= at,
            pos <= bytes@.len() ==> at <= bytes@.len(),
            spec_locals(bytes@, pos as int, n as nat, Seq::empty()) == spec_locals(
                bytes@,
                at as int,
                (n - i) as nat,
                locals@,
            ),
        decreases n - i,
    {
        let (count, next1) = read_index(bytes, at)?;
        let (t, next) = read_type(bytes, next1)?;
        let ghost before = locals@;
        let mut j: usize = 0;
        while j < count
            invariant
                j <= count,
                locals@ == before + repeated(t, j as nat),
            decreases count - j,
        {
            locals.push(t);
            j = j + 1;
            assert(locals@ =~= before + repeated(t, j as nat));
        }
        at = next;
        i = i + 1;
    }
    Ok((locals, at))
}

/// Tells that the locals and the body `r` are what the model `d` prescribes.
pub open spec fn decoded_function_code(
    r: Result<((Vec<Type>, Vec<Instruction>), usize), ParsingError>,
    d: Decoded<(Seq<Type>, Seq<InstructionView>)>,
) -> bool {
    match (r, d) {
        (Ok(((locals, body), end)), Ok(((model_locals, model_body), model_end))) => locals@
            == model_locals && code_model(body@) == model_body && end == model_end,
        (Err(e), Err(model)) => e == model,
        _ => false,
    }
}

/// Decodes the code of one function: the locals and the body.
pub fn parse_function_code(bytes: &[u8], pos: usize) -> (r: Result<
    ((Vec<Type>, Vec<Instruction>), usize),
    ParsingError,
>)
    ensures
        decoded_function_code(r, spec_function_code(bytes@, pos as int)),
        r matches Ok((_, end)) ==> pos < end <= bytes@.len(),
{
    let (_code_size, next1) = read_index(bytes, pos)?;
    let (groups, next2) = read_index(bytes, next1)?;
    let (locals, next3) = parse_locals(bytes, next2, groups)?;
    let (body, end) = parse_block(bytes, next3)?;
    Ok(((locals, body), end))
}

/// Evaluates the constant expression of a data segment to an address.
pub fn evaluate_offset(expression: &Vec<Instruction>) -> (r: Result<usize, ParsingError>)
    ensures
        r == spec_offset(code_model(expression@)),
{
    if expression.len() != 1 {
        return Err(ParsingError::ExpectedOpcode(Opcode::I32Const));
    }
    assert(code_model(expression@)[0] == instruction_model(expression@[0]));
    match &expression[0] {
        Instruction::I32Const(value) => {
            let value: i32 = *value;
            if value >= 0 {
                Ok(value as usize)
            } else {
                Ok((value as i64 + 0x1_0000_0000) as usize)
            }
        },
        _ => Err(ParsingError::ExpectedOpcode(Opcode::I32Const)),
    }
}

/// The state of the decoder: the signatures of the type section, which the
/// later sections refer to by index, and the module under construction.
#[derive(Debug, Default)]
pub struct Parser {
    pub types: Vec<FunctionSignature>,
    pub module: Module,
}

impl Parser {
    /// The model of the decoder's state.
    pub open spec fn state(&self) -> DecoderState {
        DecoderState { types: self.types.deep_view(), module: self.module.deep_view() }
    }

    /// Whether every function of the table has an index.
    pub open spec fn wf(&self) -> bool {
        self.module.functions.wf()
    }

    /// A decoder that has seen no section.
    pub fn new() -> (r: Parser)
        ensures
            r.wf(),
            r.state() == DecoderState::empty(),
    {
        let r = Parser {
            types: Vec::new(),
            module: Module {
                functions: Functions { imports: Vec::new(), wasm: Vec::new() },
                memory_blueprint: None,
            },
        };
        assert(r.state().types =~= Seq::empty());
        assert(r.state().module.functions.imports =~= Seq::empty());
        assert(r.state().module.functions.wasm =~= Seq::empty());
        r
    }

    /// Looks up a signature of the type section and copies it.
    pub fn signature(&self, index: usize) -> (r: Result<FunctionSignature, ParsingError>)
        ensures
            match spec_signature(self.state(), index) {
                Ok(model) => r is Ok && r->Ok_0.deep_view() == model,
                Err(e) => r == Err::<FunctionSignature, ParsingError>(e),
            },
    {
        if index < self.types.len() {
            Ok(self.types[index].duplicate())
        } else {
            Err(ParsingError::SignatureIndexOutOfRange { index, len: self.types.len() })
        }
    }

    /// Decodes the type section.
    #[verifier::loop_isolation(false)]
    pub fn parse_type_section(&mut self, bytes: &[u8], pos: usize) -> (r: Result<
        usize,
        ParsingError,
    >)
        requires
            old(self).wf(),
        ensures
            final(self).wf(),
            advanced(final(self).state(), r, spec_type_section(bytes@, pos as int, old(self).state())),
            r matches Ok(end) ==> pos < end <= bytes@.len(),
    {
        let (n, next) = read_index(bytes, pos)?;
        let mut types: Vec<FunctionSignature> = Vec::new();
        let mut at: usize = next;
        let mut i: usize = 0;
        assert(types.deep_view() =~= Seq::empty());
        while i < n
            invariant
                i <= n,
                next <= at <= bytes@.len(),
                spec_function_types(bytes@, next as int, n as nat, Seq::empty())
                    == spec_function_types(bytes@, at as int, (n - i) as nat, types.deep_view()),
            decreases n - i,
        {
            let (signature, after) = parse_function_type(bytes, at)?;
            let ghost before = types.deep_view();
            let ghost model = signature.deep_view();
            types.push(signature);
            assert(types.deep_view() =~= before.push(model));
            at = after;
            i = i + 1;
        }
        self.types = types;
        Ok(at)
    }

    /// Decodes one entry of the function section.
    pub fn parse_function_entry(&mut self, bytes: &[u8], pos: usize) -> (r: Result<
        usize,
        ParsingError,
    >)
        requires
            old(self).wf(),
        ensures
            final(self).wf(),
            advanced(
                final(self).state(),
                r,
                spec_function_entry(bytes@, pos as int, old(self).state()),
            ),
            r matches Ok(end) ==> pos < end <= bytes@.len(),
    {
        let (index, end) = read_index(bytes, pos)?;
        let signature = self.signature(index)?;
        let imports_len = self.module.functions.imports.len();
        let wasm_len = self.module.functions.wasm.len();
        if wasm_len >= usize::MAX - imports_len {
            return Err(ParsingError::TooManyFunctions);
        }
        let function = WasmFunction {
            index: imports_len + wasm_len,
            export_name: None,
            signature,
            locals: Vec::new(),
            body: Vec::new(),
        };
        let ghost before = self.module.functions.wasm.deep_view();
        let ghost model = function.deep_view();
        assert(model.body =~= Seq::empty());
        assert(model.locals =~= Seq::empty());
        self.module.functions.wasm.push(function);
        assert(self.module.functions.wasm.deep_view() =~= before.push(model));
        Ok(end)
    }

    /// Decodes the function section.
    #[verifier::loop_isolation(false)]
    pub fn parse_function_section(&mut self, bytes: &[u8], pos: usize) -> (r: Result<
        usize,
        ParsingError,
    >)
        requires
            old(self).wf(),
        ensures
            final(self).wf(),
            advanced(
                final(self).state(),
                r,
                spec_function_section(bytes@, pos as int, old(self).state()),
            ),
            r matches Ok(end) ==> pos < end <= bytes@.len(),
    {
        let (n, next) = read_index(bytes, pos)?;
        let ghost start = self.state();
        let mut at: usize = next;
        let mut i: usize = 0;
        while i < n
            invariant
                self.wf(),
                i <= n,
                next <= at <= bytes@.len(),
                spec_function_entries(bytes@, next as int, n as nat, start)
                    == spec_function_entries(bytes@, at as int, (n - i) as nat, self.state()),
            decreases n - i,
        {
            at = self.parse_function_entry(bytes, at)?;
            i = i + 1;
        }
        Ok(at)
    }

    /// Decodes one entry of the import section.
    pub fn parse_import_entry(&mut self, bytes: &[u8], pos: usize) -> (r: Result<
        usize,
        ParsingError,
    >)
        requires
            old(self).wf(),
        ensures
            final(self).wf(),
            advanced(final(self).state(), r, spec_import_entry(bytes@, pos as int, old(self).state())),
            r matches Ok(end) ==> pos < end <= bytes@.len(),
    {
        let (module, next1) = read_string(bytes, pos)?;
        let (field, next2) = read_string(bytes, next1)?;
        let (kind, next3) = read_export_kind(bytes, next2)?;
        let (index, end) = read_index(bytes, next3)?;
        match kind {
            ExportKind::Function => {},
            _ => {
                return Err(ParsingError::UnsupportedImportKind(kind));
            },
        }
        let signature = self.signature(index)?;
        let imports_len = self.module.functions.imports.len();
        let wasm_len = self.module.functions.wasm.len();
        if wasm_len >= usize::MAX - imports_len {
            return Err(ParsingError::TooManyFunctions);
        }
        let import = ExternFunction { name: Identifier { module, field }, signature };
        let ghost before = self.module.functions.imports.deep_view();
        let ghost model = import.deep_view();
        self.module.functions.imports.push(import);
        assert(self.module.functions.imports.deep_view() =~= before.push(model));
        Ok(end)
    }

    /// Decodes the import section.
    #[verifier::loop_isolation(false)]
    pub fn parse_import_section(&mut self, bytes: &[u8], pos: usize) -> (r: Result<
        usize,
        ParsingError,
    >)
        requires
            old(self).wf(),
        ensures
            final(self).wf(),
            advanced(
                final(self).state(),
                r,
                spec_import_section(bytes@, pos as int, old(self).state()),
            ),
            r matches Ok(end) ==> pos < end <= bytes@.len(),
    {
        let (n, next) = read_index(bytes, pos)?;
        let ghost start = self.state();
        let mut at: usize = next;
        let mut i: usize = 0;
        while i < n
            invariant
                self.wf(),
                i <= n,
                next <= at <= bytes@.len(),
                spec_import_entries(bytes@, next as int, n as nat, start) == spec_import_entries(
                    bytes@,
                    at as int,
                    (n - i) as nat,
                    self.state(),
                ),
            decreases n - i,
        {
            at = self.parse_import_entry(bytes, at)?;
            i = i + 1;
        }
        Ok(at)
    }

    /// Decodes the memory section.
    pub fn parse_memory_section(&mut self, bytes: &[u8], pos: usize) -> (r: Result<
        usize,
        ParsingError,
    >)
        requires
            old(self).wf(),
        ensures
            final(self).wf(),
            advanced(
                final(self).state(),
                r,
                spec_memory_section(bytes@, pos as int, old(self).state()),
            ),
            r matches Ok(end) ==> pos < end <= bytes@.len(),
    {
        let (n, next) = read_index(bytes, pos)?;
        if n > 1 {
            return Err(ParsingError::MultipleMemories(n));
        }
        if n == 0 {
            return Ok(next);
        }
        if self.module.memory_blueprint.is_some() {
            return Err(ParsingError::MultipleMemories(2));
        }
        let (page_limit, end) = parse_limits(bytes, next)?;
        let blueprint = MemoryBlueprint { page_limit, export_name: None, init: Vec::new() };
        assert(blueprint.deep_view().init =~= Seq::empty());
        self.module.memory_blueprint = Some(blueprint);
        Ok(end)
    }

    /// Applies one export: names a function or the memory.
    pub fn apply_export(&mut self, name: String, kind: ExportKind, index: usize) -> (r: Result<
        (),
        ParsingError,
    >)
        requires
            old(self).wf(),
        ensures
            final(self).wf(),
            match spec_export(old(self).state(), name@, kind, index) {
                Ok(model) => r is Ok && final(self).state() == model,
                Err(e) => r == Err::<(), ParsingError>(e),
            },
    {
        match kind {
            ExportKind::Function => {
                let position = self.module.functions.get_wasm_function(index)?;
                let ghost before = self.module.functions.wasm.deep_view();
                let ghost model = WasmFunctionView {
                    export_name: Some(name@),
                    ..before[position as int]
                };
                let function = &mut self.module.functions.wasm[position];
                function.export_name = Some(name);
                assert(self.module.functions.wasm.deep_view() =~= before.update(
                    position as int,
                    model,
                ));
                Ok(())
            },
            ExportKind::Memory => {
                if index != 0 {
                    return Err(ParsingError::MemoryIndexOutOfRange(index));
                }
                match &mut self.module.memory_blueprint {
                    Some(memory) => {
                        memory.export_name = Some(name);
                        Ok(())
                    },
                    None => Err(ParsingError::MemoryIndexOutOfRange(index)),
                }
            },
            _ => Ok(()),
        }
    }

    /// Decodes one entry of the export section.
    pub fn parse_export(&mut self, bytes: &[u8], pos: usize) -> (r: Result<usize, ParsingError>)
        requires
            old(self).wf(),
        ensures
            final(self).wf(),
            advanced(final(self).state(), r, spec_export_entry(bytes@, pos as int, old(self).state())),
            r matches Ok(end) ==> pos < end <= bytes@.len(),
    {
        let (name, next1) = read_string(bytes, pos)?;
        let (kind, next2) = read_export_kind(bytes, next1)?;
        let (index, end) = read_index(bytes, next2)?;
        match self.apply_export(name, kind, index) {
            Ok(()) => Ok(end),
            Err(e) => Err(e),
        }
    }

    /// Decodes the export section.
    #[verifier::loop_isolation(false)]
    pub fn parse_export_section(&mut self, bytes: &[u8], pos: usize) -> (r: Result<
        usize,
        ParsingError,
    >)
        requires
            old(self).wf(),
        ensures
            final(self).wf(),
            advanced(
                final(self).state(),
                r,
                spec_export_section(bytes@, pos as int, old(self).state()),
            ),
            r matches Ok(end) ==> pos < end <= bytes@.len(),
    {
        let (n, next) = read_index(bytes, pos)?;
        let ghost start = self.state();
        let mut at: usize = next;
        let mut i: usize = 0;
        while i < n
            invariant
                self.wf(),
                i <= n,
                next <= at <= bytes@.len(),
                spec_export_entries(bytes@, next as int, n as nat, start) == spec_export_entries(
                    bytes@,
                    at as int,
                    (n - i) as nat,
                    self.state(),
                ),
            decreases n - i,
        {
            at = self.parse_export(bytes, at)?;
            i = i + 1;
        }
        Ok(at)
    }
}

impl Parser {
    /// Decodes the code section.
    #[verifier::loop_isolation(false)]
    pub fn parse_code_section(&mut self, bytes: &[u8], pos: usize) -> (r: Result<
        usize,
        ParsingError,
    >)
        requires
            old(self).wf(),
        ensures
            final(self).wf(),
            advanced(final(self).state(), r, spec_code_section(bytes@, pos as int, old(self).state())),
            r matches Ok(end) ==> pos < end <= bytes@.len(),
    {
        let (n, next) = read_index(bytes, pos)?;
        let ghost start = self.state();
        let mut at: usize = next;
        let mut i: usize = 0;
        while i < n
            invariant
                self.wf(),
                i <= n,
                next <= at <= bytes@.len(),
                spec_code_entries(bytes@, next as int, 0, n as nat, start) == spec_code_entries(
                    bytes@,
                    at as int,
                    i as nat,
                    n as nat,
                    self.state(),
                ),
            decreases n - i,
        {
            let wasm_len = self.module.functions.wasm.len();
            let imports_len = self.module.functions.imports.len();
            if i >= wasm_len {
                return Err(
                    ParsingError::WasmFunctionOutOfRange {
                        index: imports_len + wasm_len,
                        wasm_len,
                        imports_len,
                        total_len: imports_len + wasm_len,
                    },
                );
            }
            let ((locals, body), after) = parse_function_code(bytes, at)?;
            let ghost before = self.module.functions.wasm.deep_view();
            let ghost model = WasmFunctionView {
                locals: locals@,
                body: code_model(body@),
                ..before[i as int]
            };
            let function = &mut self.module.functions.wasm[i];
            function.locals = locals;
            function.body = body;
            assert(self.module.functions.wasm.deep_view() =~= before.update(i as int, model));
            at = after;
            i = i + 1;
        }
        Ok(at)
    }

    /// Decodes one data segment.
    pub fn parse_data_entry(&mut self, bytes: &[u8], pos: usize) -> (r: Result<usize, ParsingError>)
        requires
            old(self).wf(),
        ensures
            final(self).wf(),
            advanced(final(self).state(), r, spec_data_entry(bytes@, pos as int, old(self).state())),
            r matches Ok(end) ==> pos < end <= bytes@.len(),
    {
        let (b, next1) = read_byte(bytes, pos)?;
        let mode = match DataMode::from_byte(b) {
            Some(mode) => mode,
            None => {
                return Err(ParsingError::UnknownDataMode(b));
            },
        };
        match mode {
            DataMode::ActiveMemory0 => {},
            _ => {
                return Err(ParsingError::UnsupportedDataMode(mode));
            },
        }
        if self.module.memory_blueprint.is_none() {
            return Err(ParsingError::DataWithoutMemory);
        }
        let (expression, next2) = parse_block(bytes, next1)?;
        let addr = evaluate_offset(&expression)?;
        let (length, next3) = read_index(bytes, next2)?;
        let (data, end) = read_exact(bytes, next3, length)?;
        match &mut self.module.memory_blueprint {
            Some(memory) => {
                let segment = DataSegment { addr, data };
                let ghost before = memory.init.deep_view();
                let ghost model = segment.deep_view();
                memory.init.push(segment);
                assert(memory.init.deep_view() =~= before.push(model));
            },
            None => {},
        }
        Ok(end)
    }

    /// Decodes the data section.
    #[verifier::loop_isolation(false)]
    pub fn parse_data_section(&mut self, bytes: &[u8], pos: usize) -> (r: Result<
        usize,
        ParsingError,
    >)
        requires
            old(self).wf(),
        ensures
            final(self).wf(),
            advanced(final(self).state(), r, spec_data_section(bytes@, pos as int, old(self).state())),
            r matches Ok(end) ==> pos < end <= bytes@.len(),
    {
        let (n, next) = read_index(bytes, pos)?;
        let ghost start = self.state();
        let mut at: usize = next;
        let mut i: usize = 0;
        while i < n
            invariant
                self.wf(),
                i <= n,
                next <= at <= bytes@.len(),
                spec_data_entries(bytes@, next as int, n as nat, start) == spec_data_entries(
                    bytes@,
                    at as int,
                    (n - i) as nat,
                    self.state(),
                ),
            decreases n - i,
        {
            at = self.parse_data_entry(bytes, at)?;
            i = i + 1;
        }
        Ok(at)
    }

    /// Passes over the content of a section that is not decoded.
    pub fn parse_custom_section(&self, bytes: &[u8], pos: usize, section_size: usize) -> (r: Result<
        usize,
        ParsingError,
    >)
        ensures
            advanced(
                self.state(),
                r,
                spec_skipped_section(bytes@, pos as int, section_size, self.state()),
            ),
            r matches Ok(end) ==> pos <= end <= bytes@.len(),
    {
        if pos > bytes.len() || section_size > bytes.len() - pos {
            Err(ParsingError::UnexpectedEndOfInput)
        } else {
            Ok(pos + section_size)
        }
    }

    /// Decodes one section: its identifier, its size and its content.
    pub fn parse_section(&mut self, bytes: &[u8], pos: usize) -> (r: Result<usize, ParsingError>)
        requires
            old(self).wf(),
        ensures
            final(self).wf(),
            advanced(final(self).state(), r, spec_section(bytes@, pos as int, old(self).state())),
            r matches Ok(end) ==> pos < end <= bytes@.len(),
    {
        let (b, next1) = read_byte(bytes, pos)?;
        let id = match SectionId::from_byte(b) {
            Some(id) => id,
            None => {
                return Err(ParsingError::UnknownSectionId(b));
            },
        };
        let (section_size, next2) = read_index(bytes, next1)?;
        match id {
            SectionId::Type => self.parse_type_section(bytes, next2),
            SectionId::Import => self.parse_import_section(bytes, next2),
            SectionId::Function => self.parse_function_section(bytes, next2),
            SectionId::Memory => self.parse_memory_section(bytes, next2),
            SectionId::Export => self.parse_export_section(bytes, next2),
            SectionId::Code => self.parse_code_section(bytes, next2),
            SectionId::Data => self.parse_data_section(bytes, next2),
            _ => self.parse_custom_section(bytes, next2, section_size),
        }
    }

    /// Checks the header of a module.  Returns the position behind it.
    pub fn parse_header(bytes: &[u8]) -> (r: Result<usize, ParsingError>)
        ensures
            match spec_header(bytes@) {
                Ok(pos) => r == Ok::<usize, ParsingError>(pos as usize) && pos <= bytes@.len(),
                Err(e) => r == Err::<usize, ParsingError>(e),
            },
    {
        if bytes.len() < 4 || bytes[0] != 0x00 || bytes[1] != 0x61 || bytes[2] != 0x73 || bytes[3]
            != 0x6D {
            return Err(ParsingError::NotAWasmModule);
        }
        if bytes.len() < 8 {
            return Err(ParsingError::UnexpectedEndOfInput);
        }
        if bytes[4] != 0x01 || bytes[5] != 0x00 || bytes[6] != 0x00 || bytes[7] != 0x00 {
            return Err(ParsingError::IllegalVersion([bytes[4], bytes[5], bytes[6], bytes[7]]));
        }
        Ok(8)
    }

    /// Decodes a module: the header, then sections up to the end of the
    /// bytes.
    #[verifier::loop_isolation(false)]
    pub fn parse_module(bytecode: &[u8]) -> (r: Result<Module, ParsingError>)
        ensures
            decodes(bytecode@, r),
            r matches Ok(module) ==> module.functions.wf(),
    {
        let start = Parser::parse_header(bytecode)?;
        let mut parser = Parser::new();
        let mut at: usize = start;
        while at < bytecode.len()
            invariant
                parser.wf(),
                start <= at <= bytecode@.len(),
                spec_sections(bytecode@, start as int, DecoderState::empty()) == spec_sections(
                    bytecode@,
                    at as int,
                    parser.state(),
                ),
            decreases bytecode@.len() - at,
        {
            at = parser.parse_section(bytecode, at)?;
        }
        Ok(parser.module)
    }
}

impl Module {
    /// Decodes `bytecode` into a module.
    pub fn new(bytecode: &[u8]) -> (r: Result<Module, ParsingError>)
        ensures
            decodes(bytecode@, r),
            r matches Ok(module) ==> module.functions.wf(),
    {
        Parser::parse_module(bytecode)
    }
}

} // verus!
