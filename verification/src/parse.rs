//! Decoding of the WebAssembly binary format.
//!
//! `Module::new` turns the bytes of a module into a [`Module`] or into the
//! [`ParsingError`] that names the construct that failed.  What the bytes
//! mean is written down as mathematical functions in `grammar` and
//! `sections`; the decoder in `stream` and `parser` is proved to compute
//! them.  The type, import, function, memory, export, code and data sections
//! are decoded; the others are passed over.

pub mod error;
pub mod grammar;
pub mod module;
pub mod opcode;
pub mod parser;
pub mod sections;
pub mod stream;
pub mod types;
pub mod varint;

pub use error::ParsingError;
pub use module::{DataSegment, MemoryBlueprint, Module, PageLimit};
pub use opcode::Opcode;
pub use parser::Parser;
pub use types::{DataMode, ExportKind, LimitKind, SectionId, Type};
