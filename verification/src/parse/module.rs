//! What decoding produces: the module, with the blueprint of its memory.

use vstd::prelude::*;
use crate::exec::types::{Functions, FunctionsView};

verus! {

/// The least and the greatest number of pages that a memory may have.
#[derive(Clone, Copy, Debug, Default, PartialEq, Eq, Structural)]
pub struct PageLimit {
    pub start: u64,
    pub end: u64,
}

/// The greatest page limit that the format can express, used where a memory
/// declares no maximum.
pub const UNBOUNDED_PAGES: u64 = 0x1_0000_0000;

/// Bytes to copy into the memory when it is built.
#[derive(Debug, Default, PartialEq, Eq)]
pub struct DataSegment {
    pub addr: usize,
    pub data: Vec<u8>,
}

/// The model of a `DataSegment`.
pub struct DataSegmentView {
    pub addr: usize,
    pub data: Seq<u8>,
}

impl DeepView for DataSegment {
    type V = DataSegmentView;

    open spec fn deep_view(&self) -> DataSegmentView {
        DataSegmentView { addr: self.addr, data: self.data@ }
    }
}

/// What the module says of its memory: the page limit, the name it is
/// exported under and the data segments to copy into it.
#[derive(Debug, Default, PartialEq, Eq)]
pub struct MemoryBlueprint {
    pub page_limit: PageLimit,
    pub export_name: Option<String>,
    pub init: Vec<DataSegment>,
}

/// The model of a `MemoryBlueprint`.
pub struct MemoryBlueprintView {
    pub page_limit: PageLimit,
    pub export_name: Option<Seq<char>>,
    pub init: Seq<DataSegmentView>,
}

impl DeepView for MemoryBlueprint {
    type V = MemoryBlueprintView;

    open spec fn deep_view(&self) -> MemoryBlueprintView {
        MemoryBlueprintView {
            page_limit: self.page_limit,
            export_name: self.export_name.deep_view(),
            init: self.init.deep_view(),
        }
    }
}

/// A decoded module.
#[derive(Debug, Default, PartialEq, Eq)]
pub struct Module {
    pub functions: Functions,
    pub memory_blueprint: Option<MemoryBlueprint>,
}

/// The model of a `Module`.
pub struct ModuleView {
    pub functions: FunctionsView,
    pub memory_blueprint: Option<MemoryBlueprintView>,
}

impl DeepView for Module {
    type V = ModuleView;

    open spec fn deep_view(&self) -> ModuleView {
        ModuleView {
            functions: self.functions.deep_view(),
            memory_blueprint: self.memory_blueprint.deep_view(),
        }
    }
}

impl ModuleView {
    /// The module without functions and without memory.
    pub open spec fn empty() -> ModuleView {
        ModuleView {
            functions: FunctionsView { imports: Seq::empty(), wasm: Seq::empty() },
            memory_blueprint: None,
        }
    }
}

} // verus!
