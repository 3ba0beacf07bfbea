//! The byte-coded tags of the binary format.

use vstd::prelude::*;

verus! {

/// The identifier byte that starts every section of a module.
#[derive(Clone, Copy, Debug, PartialEq, Eq, Structural)]
pub enum SectionId {
    Custom,
    Type,
    Import,
    Function,
    Table,
    Memory,
    Global,
    Export,
    Start,
    Element,
    Code,
    Data,
    DataCount,
}

impl SectionId {
    /// The byte that encodes this section identifier.
    pub open spec fn byte(self) -> u8 {
        match self {
            SectionId::Custom => 0x00,
            SectionId::Type => 0x01,
            SectionId::Import => 0x02,
            SectionId::Function => 0x03,
            SectionId::Table => 0x04,
            SectionId::Memory => 0x05,
            SectionId::Global => 0x06,
            SectionId::Export => 0x07,
            SectionId::Start => 0x08,
            SectionId::Element => 0x09,
            SectionId::Code => 0x0A,
            SectionId::Data => 0x0B,
            SectionId::DataCount => 0x0C,
        }
    }

    /// The section identifier that `b` encodes, if any: the one whose `byte` is `b`.
    pub open spec fn decode(b: u8) -> Option<SectionId> {
        if exists|x: SectionId| x.byte() == b {
            Some(choose|x: SectionId| x.byte() == b)
        } else {
            None
        }
    }

    /// Encodes this section identifier.
    pub fn to_byte(&self) -> (b: u8)
        ensures
            b == self.byte(),
    {
        match self {
            SectionId::Custom => 0x00,
            SectionId::Type => 0x01,
            SectionId::Import => 0x02,
            SectionId::Function => 0x03,
            SectionId::Table => 0x04,
            SectionId::Memory => 0x05,
            SectionId::Global => 0x06,
            SectionId::Export => 0x07,
            SectionId::Start => 0x08,
            SectionId::Element => 0x09,
            SectionId::Code => 0x0A,
            SectionId::Data => 0x0B,
            SectionId::DataCount => 0x0C,
        }
    }

    /// Decodes a section identifier; `None` for a byte that encodes none.
    pub fn from_byte(b: u8) -> (r: Option<SectionId>)
        ensures
            r == Self::decode(b),
            r matches Some(x) ==> x.byte() == b,
            r is None ==> forall|x: SectionId| x.byte() != b,
    {
        let r = match b {
            0x00 => Some(SectionId::Custom),
            0x01 => Some(SectionId::Type),
            0x02 => Some(SectionId::Import),
            0x03 => Some(SectionId::Function),
            0x04 => Some(SectionId::Table),
            0x05 => Some(SectionId::Memory),
            0x06 => Some(SectionId::Global),
            0x07 => Some(SectionId::Export),
            0x08 => Some(SectionId::Start),
            0x09 => Some(SectionId::Element),
            0x0A => Some(SectionId::Code),
            0x0B => Some(SectionId::Data),
            0x0C => Some(SectionId::DataCount),
            _ => None,
        };
        proof {
            match r {
                Some(x) => {
                    assert(x.byte() == b);
                    let y = choose|y: SectionId| y.byte() == b;
                    assert(y.byte() == b);
                    assert(y == x);
                },
                None => {
                    assert forall|x: SectionId| x.byte() != b by {}
                },
            }
        }
        r
    }
}

/// A value or reference type tag.
#[derive(Clone, Copy, Debug, PartialEq, Eq, Structural)]
pub enum Type {
    I32,
    I64,
    F32,
    F64,
    V128,
    FuncRef,
    ExternRef,
    Function,
    Const,
    Var,
}

impl Type {
    /// The byte that encodes this type tag.
    pub open spec fn byte(self) -> u8 {
        match self {
            Type::I32 => 0x7F,
            Type::I64 => 0x7E,
            Type::F32 => 0x7D,
            Type::F64 => 0x7C,
            Type::V128 => 0x7B,
            Type::FuncRef => 0x70,
            Type::ExternRef => 0x6F,
            Type::Function => 0x60,
            Type::Const => 0x00,
            Type::Var => 0x01,
        }
    }

    /// The type tag that `b` encodes, if any: the one whose `byte` is `b`.
    pub open spec fn decode(b: u8) -> Option<Type> {
        if exists|x: Type| x.byte() == b {
            Some(choose|x: Type| x.byte() == b)
        } else {
            None
        }
    }

    /// Encodes this type tag.
    pub fn to_byte(&self) -> (b: u8)
        ensures
            b == self.byte(),
    {
        match self {
            Type::I32 => 0x7F,
            Type::I64 => 0x7E,
            Type::F32 => 0x7D,
            Type::F64 => 0x7C,
            Type::V128 => 0x7B,
            Type::FuncRef => 0x70,
            Type::ExternRef => 0x6F,
            Type::Function => 0x60,
            Type::Const => 0x00,
            Type::Var => 0x01,
        }
    }

    /// Decodes a type tag; `None` for a byte that encodes none.
    pub fn from_byte(b: u8) -> (r: Option<Type>)
        ensures
            r == Self::decode(b),
            r matches Some(x) ==> x.byte() == b,
            r is None ==> forall|x: Type| x.byte() != b,
    {
        let r = match b {
            0x00 => Some(Type::Const),
            0x01 => Some(Type::Var),
            0x60 => Some(Type::Function),
            0x6F => Some(Type::ExternRef),
            0x70 => Some(Type::FuncRef),
            0x7B => Some(Type::V128),
            0x7C => Some(Type::F64),
            0x7D => Some(Type::F32),
            0x7E => Some(Type::I64),
            0x7F => Some(Type::I32),
            _ => None,
        };
        proof {
            match r {
                Some(x) => {
                    assert(x.byte() == b);
                    let y = choose|y: Type| y.byte() == b;
                    assert(y.byte() == b);
                    assert(y == x);
                },
                None => {
                    assert forall|x: Type| x.byte() != b by {}
                },
            }
        }
        r
    }
}

/// Tells whether a memory limit carries a maximum.
#[derive(Clone, Copy, Debug, PartialEq, Eq, Structural)]
pub enum LimitKind {
    Min,
    MinMax,
}

impl LimitKind {
    /// The byte that encodes this limit kind.
    pub open spec fn byte(self) -> u8 {
        match self {
            LimitKind::Min => 0x00,
            LimitKind::MinMax => 0x01,
        }
    }

    /// The limit kind that `b` encodes, if any: the one whose `byte` is `b`.
    pub open spec fn decode(b: u8) -> Option<LimitKind> {
        if exists|x: LimitKind| x.byte() == b {
            Some(choose|x: LimitKind| x.byte() == b)
        } else {
            None
        }
    }

    /// Encodes this limit kind.
    pub fn to_byte(&self) -> (b: u8)
        ensures
            b == self.byte(),
    {
        match self {
            LimitKind::Min => 0x00,
            LimitKind::MinMax => 0x01,
        }
    }

    /// Decodes a limit kind; `None` for a byte that encodes none.
    pub fn from_byte(b: u8) -> (r: Option<LimitKind>)
        ensures
            r == Self::decode(b),
            r matches Some(x) ==> x.byte() == b,
            r is None ==> forall|x: LimitKind| x.byte() != b,
    {
        let r = match b {
            0x00 => Some(LimitKind::Min),
            0x01 => Some(LimitKind::MinMax),
            _ => None,
        };
        proof {
            match r {
                Some(x) => {
                    assert(x.byte() == b);
                    let y = choose|y: LimitKind| y.byte() == b;
                    assert(y.byte() == b);
                    assert(y == x);
                },
                None => {
                    assert forall|x: LimitKind| x.byte() != b by {}
                },
            }
        }
        r
    }
}

/// What an import or export names.
#[derive(Clone, Copy, Debug, PartialEq, Eq, Structural)]
pub enum ExportKind {
    Function,
    Table,
    Memory,
    Global,
}

impl ExportKind {
    /// The byte that encodes this export kind.
    pub open spec fn byte(self) -> u8 {
        match self {
            ExportKind::Function => 0x00,
            ExportKind::Table => 0x01,
            ExportKind::Memory => 0x02,
            ExportKind::Global => 0x03,
        }
    }

    /// The export kind that `b` encodes, if any: the one whose `byte` is `b`.
    pub open spec fn decode(b: u8) -> Option<ExportKind> {
        if exists|x: ExportKind| x.byte() == b {
            Some(choose|x: ExportKind| x.byte() == b)
        } else {
            None
        }
    }

    /// Encodes this export kind.
    pub fn to_byte(&self) -> (b: u8)
        ensures
            b == self.byte(),
    {
        match self {
            ExportKind::Function => 0x00,
            ExportKind::Table => 0x01,
            ExportKind::Memory => 0x02,
            ExportKind::Global => 0x03,
        }
    }

    /// Decodes a export kind; `None` for a byte that encodes none.
    pub fn from_byte(b: u8) -> (r: Option<ExportKind>)
        ensures
            r == Self::decode(b),
            r matches Some(x) ==> x.byte() == b,
            r is None ==> forall|x: ExportKind| x.byte() != b,
    {
        let r = match b {
            0x00 => Some(ExportKind::Function),
            0x01 => Some(ExportKind::Table),
            0x02 => Some(ExportKind::Memory),
            0x03 => Some(ExportKind::Global),
            _ => None,
        };
        proof {
            match r {
                Some(x) => {
                    assert(x.byte() == b);
                    let y = choose|y: ExportKind| y.byte() == b;
                    assert(y.byte() == b);
                    assert(y == x);
                },
                None => {
                    assert forall|x: ExportKind| x.byte() != b by {}
                },
            }
        }
        r
    }
}

/// How a data segment is placed.
#[derive(Clone, Copy, Debug, PartialEq, Eq, Structural)]
pub enum DataMode {
    ActiveMemory0,
    Passive,
    Active,
}

impl DataMode {
    /// The byte that encodes this data mode.
    pub open spec fn byte(self) -> u8 {
        match self {
            DataMode::ActiveMemory0 => 0x00,
            DataMode::Passive => 0x01,
            DataMode::Active => 0x02,
        }
    }

    /// The data mode that `b` encodes, if any: the one whose `byte` is `b`.
    pub open spec fn decode(b: u8) -> Option<DataMode> {
        if exists|x: DataMode| x.byte() == b {
            Some(choose|x: DataMode| x.byte() == b)
        } else {
            None
        }
    }

    /// Encodes this data mode.
    pub fn to_byte(&self) -> (b: u8)
        ensures
            b == self.byte(),
    {
        match self {
            DataMode::ActiveMemory0 => 0x00,
            DataMode::Passive => 0x01,
            DataMode::Active => 0x02,
        }
    }

    /// Decodes a data mode; `None` for a byte that encodes none.
    pub fn from_byte(b: u8) -> (r: Option<DataMode>)
        ensures
            r == Self::decode(b),
            r matches Some(x) ==> x.byte() == b,
            r is None ==> forall|x: DataMode| x.byte() != b,
    {
        let r = match b {
            0x00 => Some(DataMode::ActiveMemory0),
            0x01 => Some(DataMode::Passive),
            0x02 => Some(DataMode::Active),
            _ => None,
        };
        proof {
            match r {
                Some(x) => {
                    assert(x.byte() == b);
                    let y = choose|y: DataMode| y.byte() == b;
                    assert(y.byte() == b);
                    assert(y == x);
                },
                None => {
                    assert forall|x: DataMode| x.byte() != b by {}
                },
            }
        }
        r
    }
}

} // verus!
