//! Values, signatures and the functions table.

use vstd::prelude::*;
use vstd::string::StringExecFns;
use crate::exec::instruction::{code_model, Instruction, InstructionView};
use crate::parse::error::ParsingError;
use crate::parse::types::Type;

verus! {

/// A value on the operand stack.  Only the first four variants are operands
/// of instructions; the others keep what the decoder met.  A float is held as
/// its IEEE-754 bit pattern.
#[derive(Clone, Copy, Debug, PartialEq, Eq, Structural)]
pub enum Value {
    I32(i32),
    I64(i64),
    F32(u32),
    F64(u64),
    V128,
    FuncRef,
    ExternRef,
    Function,
    Const,
    Var,
}

/// The parameter and result types of a function, in order.
#[derive(Clone, Debug, Default, PartialEq, Eq)]
pub struct FunctionSignature {
    pub params: Vec<Type>,
    pub results: Vec<Type>,
}

/// The model of a `FunctionSignature`.
pub struct SignatureView {
    pub params: Seq<Type>,
    pub results: Seq<Type>,
}

impl DeepView for FunctionSignature {
    type V = SignatureView;

    open spec fn deep_view(&self) -> SignatureView {
        SignatureView { params: self.params@, results: self.results@ }
    }
}

/// Copies a list of type tags.
pub fn copy_types(types: &Vec<Type>) -> (r: Vec<Type>)
    ensures
        r@ == types@,
{
    let mut r: Vec<Type> = Vec::new();
    let mut i: usize = 0;
    while i < types.len()
        invariant
            i <= types.len(),
            r@ == types@.subrange(0, i as int),
        decreases types.len() - i,
    {
        r.push(types[i]);
        i = i + 1;
        assert(r@ =~= types@.subrange(0, i as int));
    }
    assert(r@ =~= types@);
    r
}

impl FunctionSignature {
    /// A copy of this signature that shares nothing with it.
    pub fn duplicate(&self) -> (r: FunctionSignature)
        ensures
            r.deep_view() == self.deep_view(),
    {
        FunctionSignature { params: copy_types(&self.params), results: copy_types(&self.results) }
    }

    /// Whether two signatures have the same parameter and result types.
    pub fn same_as(&self, other: &FunctionSignature) -> (r: bool)
        ensures
            r == (self.deep_view() == other.deep_view()),
    {
        let r = same_types(&self.params, &other.params) && same_types(
            &self.results,
            &other.results,
        );
        r
    }
}

/// Whether two lists of type tags are equal.
pub fn same_types(a: &Vec<Type>, b: &Vec<Type>) -> (r: bool)
    ensures
        r == (a@ == b@),
{
    if a.len() != b.len() {
        return false;
    }
    let mut i: usize = 0;
    while i < a.len()
        invariant
            i <= a.len(),
            a.len() == b.len(),
            a@.subrange(0, i as int) == b@.subrange(0, i as int),
        decreases a.len() - i,
    {
        if a[i] != b[i] {
            return false;
        }
        i = i + 1;
        assert(a@.subrange(0, i as int) =~= a@.subrange(0, i - 1).push(a@[i - 1]));
        assert(b@.subrange(0, i as int) =~= b@.subrange(0, i - 1).push(b@[i - 1]));
    }
    assert(a@ =~= a@.subrange(0, i as int));
    assert(b@ =~= b@.subrange(0, i as int));
    true
}

/// The name of a host function: the module it comes from and its field.
#[derive(Clone, Debug, PartialEq, Eq)]
pub struct Identifier {
    pub module: String,
    pub field: String,
}

/// The model of an `Identifier`.
pub struct IdentifierView {
    pub module: Seq<char>,
    pub field: Seq<char>,
}

impl DeepView for Identifier {
    type V = IdentifierView;

    open spec fn deep_view(&self) -> IdentifierView {
        IdentifierView { module: self.module@, field: self.field@ }
    }
}

impl Identifier {
    /// The identifier of `field` in `module`.
    pub fn new(module: &str, field: &str) -> (r: Identifier)
        ensures
            r.deep_view() == (IdentifierView { module: module@, field: field@ }),
    {
        Identifier { module: module.to_owned(), field: field.to_owned() }
    }

    /// A copy of this identifier.
    pub fn duplicate(&self) -> (r: Identifier)
        ensures
            r.deep_view() == self.deep_view(),
    {
        Identifier { module: self.module.clone(), field: self.field.clone() }
    }

    /// Whether two identifiers name the same module and field.
    pub fn same_as(&self, other: &Identifier) -> (r: bool)
        ensures
            r == (self.deep_view() == other.deep_view()),
    {
        self.module == other.module && self.field == other.field
    }
}

/// A function that the module imports from the host.
#[derive(Debug, PartialEq, Eq)]
pub struct ExternFunction {
    pub name: Identifier,
    pub signature: FunctionSignature,
}

/// The model of an `ExternFunction`.
pub struct ExternFunctionView {
    pub name: IdentifierView,
    pub signature: SignatureView,
}

impl DeepView for ExternFunction {
    type V = ExternFunctionView;

    open spec fn deep_view(&self) -> ExternFunctionView {
        ExternFunctionView { name: self.name.deep_view(), signature: self.signature.deep_view() }
    }
}

/// A function that the module defines: its place in the functions table, the
/// name it is exported under, its signature, the types of its locals and its
/// body.
#[derive(Debug, Default, PartialEq, Eq)]
pub struct WasmFunction {
    pub index: usize,
    pub export_name: Option<String>,
    pub signature: FunctionSignature,
    pub locals: Vec<Type>,
    pub body: Vec<Instruction>,
}

/// The model of a `WasmFunction`.
pub struct WasmFunctionView {
    pub index: usize,
    pub export_name: Option<Seq<char>>,
    pub signature: SignatureView,
    pub locals: Seq<Type>,
    pub body: Seq<InstructionView>,
}

impl DeepView for WasmFunction {
    type V = WasmFunctionView;

    open spec fn deep_view(&self) -> WasmFunctionView {
        WasmFunctionView {
            index: self.index,
            export_name: self.export_name.deep_view(),
            signature: self.signature.deep_view(),
            locals: self.locals@,
            body: code_model(self.body@),
        }
    }
}

/// The functions of a module: the imports, which take the lowest indices, and
/// behind them the functions that the module defines.
#[derive(Debug, Default, PartialEq, Eq)]
pub struct Functions {
    pub imports: Vec<ExternFunction>,
    pub wasm: Vec<WasmFunction>,
}

/// The model of `Functions`.
pub struct FunctionsView {
    pub imports: Seq<ExternFunctionView>,
    pub wasm: Seq<WasmFunctionView>,
}

impl DeepView for Functions {
    type V = FunctionsView;

    open spec fn deep_view(&self) -> FunctionsView {
        FunctionsView { imports: self.imports.deep_view(), wasm: self.wasm.deep_view() }
    }
}

impl FunctionsView {
    /// The position among the module's own functions of the function with the
    /// index `function_index`, or the error that tells why it has none.
    pub open spec fn wasm_position(self, function_index: usize) -> Result<int, ParsingError> {
        if self.imports.len() <= function_index < self.imports.len() + self.wasm.len() {
            Ok(function_index - self.imports.len())
        } else {
            Err(
                ParsingError::WasmFunctionOutOfRange {
                    index: function_index,
                    wasm_len: self.wasm.len() as usize,
                    imports_len: self.imports.len() as usize,
                    total_len: (self.wasm.len() + self.imports.len()) as usize,
                },
            )
        }
    }
}

impl Functions {
    /// Whether the table is small enough for every function to have an index.
    pub open spec fn wf(&self) -> bool {
        self.imports@.len() + self.wasm@.len() <= usize::MAX
    }

    /// Finds the function with the index `function_index` among those that the
    /// module defines.  Returns its position in `wasm`.
    pub fn get_wasm_function(&self, function_index: usize) -> (r: Result<usize, ParsingError>)
        requires
            self.wf(),
        ensures
            match self.deep_view().wasm_position(function_index) {
                Ok(position) => r == Ok::<usize, ParsingError>(position as usize) && position
                    < self.wasm@.len(),
                Err(e) => r == Err::<usize, ParsingError>(e),
            },
    {
        let wasm_len = self.wasm.len();
        let imports_len = self.imports.len();
        let total_len = wasm_len + imports_len;
        if function_index >= imports_len && function_index < total_len {
            Ok(function_index - imports_len)
        } else {
            Err(
                ParsingError::WasmFunctionOutOfRange {
                    index: function_index,
                    wasm_len,
                    imports_len,
                    total_len,
                },
            )
        }
    }
}

/// A function that the host offers to modules: its name and its signature.
/// The host keeps the operation itself; the library knows it by its place in
/// the list that the host hands over on instantiation.
#[derive(Debug, PartialEq, Eq)]
pub struct HostFunction {
    pub name: Identifier,
    pub signature: FunctionSignature,
}

impl DeepView for HostFunction {
    type V = ExternFunctionView;

    open spec fn deep_view(&self) -> ExternFunctionView {
        ExternFunctionView { name: self.name.deep_view(), signature: self.signature.deep_view() }
    }
}

/// Something that can be called: a function of the module, or a function of
/// the host, which is known by its name and by its place in the host's list.
#[derive(Debug, PartialEq, Eq)]
pub enum Callable {
    WasmFunction(WasmFunction),
    HostFunction { name: Identifier, function: usize },
}

/// The model of a `Callable`.
pub enum CallableView {
    WasmFunction(WasmFunctionView),
    HostFunction { name: IdentifierView, function: usize },
}

/// The decimal digits of `n`.
pub open spec fn decimal(n: nat) -> Seq<char>
    decreases n,
{
    if n < 10 {
        seq![digit(n)]
    } else {
        decimal(n / 10).push(digit(n % 10))
    }
}

/// The character for the digit `d`.
pub open spec fn digit(d: nat) -> char {
    if d == 0 {
        '0'
    } else if d == 1 {
        '1'
    } else if d == 2 {
        '2'
    } else if d == 3 {
        '3'
    } else if d == 4 {
        '4'
    } else if d == 5 {
        '5'
    } else if d == 6 {
        '6'
    } else if d == 7 {
        '7'
    } else if d == 8 {
        '8'
    } else {
        '9'
    }
}

/// Tells the text for the digit `d`.
pub fn digit_text(d: usize) -> (r: &'static str)
    requires
        d < 10,
    ensures
        r@ == seq![digit(d as nat)],
{
    proof {
        reveal_strlit("0");
        reveal_strlit("1");
        reveal_strlit("2");
        reveal_strlit("3");
        reveal_strlit("4");
        reveal_strlit("5");
        reveal_strlit("6");
        reveal_strlit("7");
        reveal_strlit("8");
        reveal_strlit("9");
    }
    let r = if d == 0 {
        "0"
    } else if d == 1 {
        "1"
    } else if d == 2 {
        "2"
    } else if d == 3 {
        "3"
    } else if d == 4 {
        "4"
    } else if d == 5 {
        "5"
    } else if d == 6 {
        "6"
    } else if d == 7 {
        "7"
    } else if d == 8 {
        "8"
    } else {
        "9"
    };
    assert(r@ =~= seq![digit(d as nat)]);
    r
}

/// Writes `n` in decimal digits.
pub fn to_decimal(n: usize) -> (r: String)
    ensures
        r@ == decimal(n as nat),
    decreases n,
{
    if n < 10 {
        digit_text(n).to_owned()
    } else {
        let mut text = to_decimal(n / 10);
        text.append(digit_text(n % 10));
        text
    }
}

impl CallableView {
    /// The name of the callable: for a function of the module the name it is
    /// exported under, or else its index in decimal digits; for a function of
    /// the host the text of its identifier.
    pub open spec fn name(self) -> Seq<char> {
        match self {
            CallableView::WasmFunction(f) => match f.export_name {
                Some(name) => name,
                None => decimal(f.index as nat),
            },
            CallableView::HostFunction { name, .. } => name.text(),
        }
    }
}

impl Callable {
    /// The name of the callable.
    pub fn name(&self) -> (r: String)
        ensures
            r@ == self.deep_view().name(),
    {
        match self {
            Callable::WasmFunction(f) => match &f.export_name {
                Some(name) => name.clone(),
                None => to_decimal(f.index),
            },
            Callable::HostFunction { name, .. } => name.to_text(),
        }
    }
}

impl DeepView for Callable {
    type V = CallableView;

    open spec fn deep_view(&self) -> CallableView {
        match self {
            Callable::WasmFunction(f) => CallableView::WasmFunction(f.deep_view()),
            Callable::HostFunction { name, function } => CallableView::HostFunction {
                name: name.deep_view(),
                function: *function,
            },
        }
    }
}

impl IdentifierView {
    /// The identifier as text: the module and the field with a dot between
    /// them; the field alone where the module has no name.
    pub open spec fn text(self) -> Seq<char> {
        if self.module.len() == 0 {
            self.field
        } else {
            self.module + "."@ + self.field
        }
    }
}

impl Identifier {
    /// The identifier as text, `module.field`.
    pub fn to_text(&self) -> (r: String)
        ensures
            r@ == self.deep_view().text(),
    {
        if self.module.as_str().is_empty() {
            self.field.clone()
        } else {
            let mut text = self.module.clone();
            text.append(".");
            text.append(self.field.as_str());
            text
        }
    }
}

} // verus!
