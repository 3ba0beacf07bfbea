//! The failures of the decoder.

use vstd::prelude::*;
use crate::parse::opcode::Opcode;
use crate::parse::types::{DataMode, ExportKind};

verus! {

/// Why a byte source was rejected.  Each variant names the construct that
/// failed; a failure discards whatever had been decoded before it.
#[derive(Debug, PartialEq, Eq, Clone)]
pub enum ParsingError {
    /// The source does not start with the magic constant `00 61 73 6D`.
    NotAWasmModule,
    /// The four version bytes are not `01 00 00 00`.
    IllegalVersion([u8; 4]),
    /// No section has this identifier byte.
    UnknownSectionId(u8),
    /// The byte is no type tag, or not the one that the position asks for.
    UnknownType(u8),
    /// No export kind has this byte.
    UnknownExportKind(u8),
    /// The byte starts no instruction that the decoder can decode.
    UnknownOpcode(u8),
    /// No limit kind has this byte.
    UnknownLimit(u8),
    /// No data mode has this byte.
    UnknownDataMode(u8),
    /// A function index names no function that the module defines itself.
    WasmFunctionOutOfRange { index: usize, wasm_len: usize, imports_len: usize, total_len: usize },
    /// A signature index names no entry of the type section.
    SignatureIndexOutOfRange { index: usize, len: usize },
    /// An import of a kind other than a function.
    UnsupportedImportKind(ExportKind),
    /// The memory section declares more than one memory.
    MultipleMemories(usize),
    /// A memory index names no memory of the module.
    MemoryIndexOutOfRange(usize),
    /// A data segment in a mode other than active in memory 0.
    UnsupportedDataMode(DataMode),
    /// The functions table would hold more functions than there are indices.
    TooManyFunctions,
    /// A data segment in a module that declares no memory.
    DataWithoutMemory,
    /// The source ended inside a construct.
    UnexpectedEndOfInput,
    /// An instruction list ended, or an expression was built, otherwise than
    /// with the opcode given.
    ExpectedOpcode(Opcode),
    /// A LEB128 number ended early, or does not fit the width of its field.
    Leb128,
    /// A name is not valid UTF-8.
    Utf8,
}

} // verus!
