//! The instance: a module in execution.

use vstd::prelude::*;
use crate::exec::access::memory_view;
use crate::exec::control::{
    advanced,
    begin,
    call,
    called,
    child,
    descend,
    entered,
    find_start,
    frame_code,
    frame_host,
    frame_valid,
    is_start,
    left,
    returned,
    run,
    start,
    step,
    FrameView,
    InstanceView,
    Level,
    Outcome,
};
use crate::exec::error::ExecutionError;
use crate::exec::instruction::{code_model, instruction_model, Instruction};
use crate::exec::machine::execute_basic;
use crate::exec::memory::{initial_data, Memory, MemoryView};
use crate::exec::operand_stack::{pop_rest, pop_result, OperandStack};
use crate::exec::properties::{
    lemma_call_keeps_frames_valid,
    lemma_return_keeps_frames_valid,
    lemma_start_keeps_frames_valid,
    lemma_step_keeps_wf,
};
use crate::exec::types::{
    Callable,
    CallableView,
    ExternFunction,
    ExternFunctionView,
    HostFunction,
    IdentifierView,
    Value,
    WasmFunction,
    WasmFunctionView,
};
use crate::parse::module::{Module, ModuleView};
use crate::parse::opcode::Opcode;

verus! {

/// An active call: the function, the nested instruction lists that have been
/// entered and the place of the next instruction in the innermost list.
#[derive(Debug, PartialEq, Eq)]
pub struct Frame {
    pub function_index: usize,
    pub levels: Vec<Level>,
    pub pc: usize,
}

impl DeepView for Frame {
    type V = FrameView;

    open spec fn deep_view(&self) -> FrameView {
        FrameView {
            function_index: self.function_index as nat,
            levels: self.levels.deep_view(),
            pc: self.pc as nat,
        }
    }
}

/// A module in execution: its functions, its memory, the operand stack and
/// the call stack.
#[derive(Debug)]
pub struct Instance {
    pub functions: Vec<Callable>,
    pub memory: Option<Memory>,
    pub operand_stack: OperandStack,
    pub call_stack: Vec<Frame>,
}

impl View for Instance {
    type V = InstanceView;

    open spec fn view(&self) -> InstanceView {
        InstanceView {
            functions: self.functions.deep_view(),
            memory: memory_view(self.memory),
            stack: self.operand_stack@,
            frames: self.call_stack.deep_view(),
        }
    }
}

/// The nested list that the level `level` leads into from `instruction`.
pub fn enter_child<'a>(instruction: &'a Instruction, level: Level) -> (r: Option<
    &'a Vec<Instruction>,
>)
    ensures
        match child(instruction_model(*instruction), level.deep_view()) {
            Some(inner) => r is Some && code_model(r->Some_0@) == inner,
            None => r is None,
        },
{
    match instruction {
        Instruction::Block { body, .. } => if level.else_branch {
            None
        } else {
            Some(body)
        },
        Instruction::Loop { body, .. } => if level.else_branch {
            None
        } else {
            Some(body)
        },
        Instruction::If { then_body, else_body, .. } => if level.else_branch {
            Some(else_body)
        } else {
            Some(then_body)
        },
        _ => None,
    }
}

/// Tells the place in the host's list of the function that `frame` is a call
/// of, if it is a call of a function of the host.
pub fn host_of(functions: &Vec<Callable>, frame: &Frame) -> (r: Option<usize>)
    ensures
        r == frame_host(functions.deep_view(), frame.deep_view()),
{
    if frame.function_index >= functions.len() {
        return None;
    }
    match &functions[frame.function_index] {
        Callable::HostFunction { function, .. } => Some(*function),
        _ => None,
    }
}

/// Finds the instruction list that `frame` is in.
#[verifier::loop_isolation(false)]
pub fn current_code<'a>(functions: &'a Vec<Callable>, frame: &Frame) -> (r: Option<
    &'a Vec<Instruction>,
>)
    ensures
        match frame_code(functions.deep_view(), frame.deep_view()) {
            Some(code) => r is Some && code_model(r->Some_0@) == code,
            None => r is None,
        },
        r is Some ==> forall|k: int|
            0 <= k < frame.levels@.len() ==> (#[trigger] frame.levels@[k]).index < usize::MAX,
{
    if frame.function_index >= functions.len() {
        return None;
    }
    let mut code: &Vec<Instruction> = match &functions[frame.function_index] {
        Callable::WasmFunction(f) => &f.body,
        _ => {
            return None;
        },
    };
    let ghost body = code_model(code@);
    let ghost levels = frame.levels.deep_view();
    let mut i: usize = 0;
    while i < frame.levels.len()
        invariant
            i <= frame.levels.len(),
            descend(body, levels, 0) == descend(code_model(code@), levels, i as int),
            forall|k: int| 0 <= k < i ==> (#[trigger] frame.levels@[k]).index < usize::MAX,
        decreases frame.levels.len() - i,
    {
        let level = frame.levels[i];
        assert(levels[i as int] == level.deep_view());
        if level.index >= code.len() {
            return None;
        }
        assert(code_model(code@)[level.index as int] == instruction_model(code@[level.index as int]));
        code = match enter_child(&code[level.index], level) {
            Some(inner) => inner,
            None => {
                return None;
            },
        };
        i = i + 1;
    }
    Some(code)
}

/// Moves the innermost frame one instruction further.
pub fn advance(frames: &mut Vec<Frame>)
    requires
        old(frames)@.len() > 0,
        old(frames)@.last().pc < usize::MAX,
    ensures
        final(frames).deep_view() == old(frames).deep_view().drop_last().push(
            advanced(old(frames).deep_view().last()),
        ),
{
    let n = frames.len();
    let ghost before = frames.deep_view();
    let top = &mut frames[n - 1];
    top.pc = top.pc + 1;
    assert(frames.deep_view() =~= before.drop_last().push(advanced(before.last())));
}

/// Moves the innermost frame into the nested list at its place.
pub fn enter(frames: &mut Vec<Frame>, else_branch: bool)
    requires
        old(frames)@.len() > 0,
    ensures
        final(frames).deep_view() == old(frames).deep_view().drop_last().push(
            entered(old(frames).deep_view().last(), else_branch),
        ),
{
    let n = frames.len();
    let ghost before = frames.deep_view();
    let top = &mut frames[n - 1];
    let ghost levels = top.levels.deep_view();
    let level = Level { index: top.pc, else_branch };
    top.levels.push(level);
    assert(top.levels.deep_view() =~= levels.push(level.deep_view()));
    top.pc = 0;
    assert(frames@[n - 1].deep_view() == entered(before.last(), else_branch));
    assert(frames.deep_view() =~= before.drop_last().push(entered(before.last(), else_branch)));
}

/// Moves the innermost frame behind the nested list that it is in.
pub fn leave(frames: &mut Vec<Frame>)
    requires
        old(frames)@.len() > 0,
        old(frames)@.last().levels@.len() > 0,
        old(frames)@.last().levels@.last().index < usize::MAX,
    ensures
        final(frames).deep_view() == old(frames).deep_view().drop_last().push(
            left(old(frames).deep_view().last()),
        ),
{
    let n = frames.len();
    let ghost before = frames.deep_view();
    let top = &mut frames[n - 1];
    let ghost levels = top.levels.deep_view();
    assert(levels.last() == top.levels@.last().deep_view());
    match top.levels.pop() {
        Some(level) => {
            top.pc = level.index + 1;
        },
        None => {},
    }
    assert(top.levels.deep_view() =~= levels.drop_last());
    assert(frames@[n - 1].deep_view() == left(before.last()));
    assert(frames.deep_view() =~= before.drop_last().push(left(before.last())));
}

/// Ends the innermost call.
pub fn pop_frame(frames: &mut Vec<Frame>)
    requires
        old(frames)@.len() > 0,
    ensures
        final(frames).deep_view() == old(frames).deep_view().drop_last(),
{
    let ghost before = frames.deep_view();
    frames.pop();
    assert(frames.deep_view() =~= before.drop_last());
}

/// Unwinds the call stack.
pub fn unwind(frames: &mut Vec<Frame>)
    ensures
        final(frames).deep_view() == Seq::<FrameView>::empty(),
{
    frames.clear();
    assert(frames.deep_view() =~= Seq::<FrameView>::empty());
}

/// Ends the innermost call, if it is a call of a function of the host.
pub fn end_host_call(functions: &Vec<Callable>, frames: &mut Vec<Frame>)
    ensures
        final(frames).deep_view() == returned(functions.deep_view(), old(frames).deep_view()),
{
    let n = frames.len();
    if n > 0 {
        assert(frames.deep_view().last() == frames@[n - 1].deep_view());
        if host_of(functions, &frames[n - 1]).is_some() {
            pop_frame(frames);
        }
    }
}

/// Calls the function with the index `function_index`: the function gets a
/// frame on the call stack, and a function of the host is left to the host;
/// an index beyond the table traps and unwinds the call stack.
pub fn call_function(
    functions: &Vec<Callable>,
    frames: &mut Vec<Frame>,
    function_index: usize,
) -> (r:
    Outcome)
    ensures
        (final(frames).deep_view(), r) == called(
            functions.deep_view(),
            old(frames).deep_view(),
            function_index,
        ),
{
    if function_index >= functions.len() {
        unwind(frames);
        return Outcome::Trapped(
            ExecutionError::FunctionIndexOutOfBounds { index: function_index, len: functions.len() },
        );
    }
    let ghost before = frames.deep_view();
    let frame = Frame { function_index, levels: Vec::new(), pc: 0 };
    let ghost model = frame.deep_view();
    assert(model.levels =~= Seq::empty());
    frames.push(frame);
    assert(frames.deep_view() =~= before.push(model));
    match &functions[function_index] {
        Callable::WasmFunction(_) => Outcome::Running,
        Callable::HostFunction { function, .. } => Outcome::HostCall { function: *function },
    }
}

impl Instance {
    /// The invariant of an instance: its memory, if it has one, is a whole
    /// number of pages within its limit, and every frame of the call stack is
    /// in an instruction list of the functions table.
    pub open spec fn wf(&self) -> bool {
        self@.wf()
    }

    /// Takes one step: executes the next instruction of the innermost call,
    /// or goes on behind a nested list or a call that has come to its end.
    pub fn step(&mut self) -> (r: Outcome)
        requires
            old(self).wf(),
        ensures
            final(self).wf(),
            final(self).functions == old(self).functions,
            (final(self)@, r) == step(old(self)@),
    {
        proof {
            lemma_step_keeps_wf(self@);
        }
        let n = self.call_stack.len();
        if n == 0 {
            return Outcome::Finished;
        }
        let ghost before = self@;
        assert(before.frames.last() == self.call_stack@[n - 1].deep_view());
        match host_of(&self.functions, &self.call_stack[n - 1]) {
            Some(function) => {
                return Outcome::HostCall { function };
            },
            None => {},
        }
        let code = match current_code(&self.functions, &self.call_stack[n - 1]) {
            Some(code) => code,
            None => {
                return Outcome::Finished;
            },
        };
        let pc = self.call_stack[n - 1].pc;
        if pc >= code.len() {
            if self.call_stack[n - 1].levels.len() == 0 {
                pop_frame(&mut self.call_stack);
            } else {
                leave(&mut self.call_stack);
            }
            return Outcome::Running;
        }
        let instruction = &code[pc];
        assert(code_model(code@)[pc as int] == instruction_model(*instruction));
        match instruction {
            Instruction::Block { .. } | Instruction::Loop { .. } => {
                enter(&mut self.call_stack, false);
                Outcome::Running
            },
            Instruction::If { .. } => match self.operand_stack.pop::<i32>() {
                Ok(condition) => {
                    enter(&mut self.call_stack, condition == 0);
                    Outcome::Running
                },
                Err(e) => {
                    unwind(&mut self.call_stack);
                    Outcome::Trapped(e)
                },
            },
            Instruction::BrTable { .. } => {
                advance(&mut self.call_stack);
                Outcome::Unimplemented(Opcode::BrTable)
            },
            Instruction::Return => {
                pop_frame(&mut self.call_stack);
                Outcome::Running
            },
            Instruction::Call { function_index } => {
                advance(&mut self.call_stack);
                call_function(&self.functions, &mut self.call_stack, *function_index)
            },
            _ => match execute_basic(instruction, &mut self.operand_stack, &mut self.memory) {
                Some(Ok(())) => {
                    advance(&mut self.call_stack);
                    Outcome::Running
                },
                Some(Err(e)) => {
                    unwind(&mut self.call_stack);
                    Outcome::Trapped(e)
                },
                None => {
                    advance(&mut self.call_stack);
                    Outcome::Unimplemented(instruction.opcode_of())
                },
            },
        }
    }

    /// Takes up to `fuel` steps.  Returns how the last step ended: `Running`
    /// says that the steps are used up and the machine can go on.
    pub fn run(&mut self, fuel: u64) -> (r: Outcome)
        requires
            old(self).wf(),
        ensures
            final(self).wf(),
            final(self).functions == old(self).functions,
            (final(self)@, r) == run(old(self)@, fuel as nat),
    {
        let mut left: u64 = fuel;
        while left > 0
            invariant
                self.wf(),
                self.functions == old(self).functions,
                run(old(self)@, fuel as nat) == run(self@, left as nat),
            decreases left,
        {
            let outcome = self.step();
            match outcome {
                Outcome::Running => {},
                _ => {
                    return outcome;
                },
            }
            left = left - 1;
        }
        Outcome::Running
    }
}

/// Why a module cannot be linked with the functions of the host.
pub enum LinkError {
    /// The host offers no function of this name.
    Unresolved(IdentifierView),
    /// The host's function of this name has another signature than the
    /// import.
    Mismatch(IdentifierView),
    /// The memory cannot be built.
    Memory(ExecutionError),
}

/// Tells that the error `e` reports `model`.
pub open spec fn link_failed(e: ExecutionError, model: LinkError) -> bool {
    match model {
        LinkError::Unresolved(name) => e matches ExecutionError::UnresolvedImport(id) && id.deep_view()
            == name,
        LinkError::Mismatch(name) => e matches ExecutionError::SignatureMismatch(id) && id.deep_view()
            == name,
        LinkError::Memory(inner) => e == inner,
    }
}

/// The place in the host's list `host`, from `from` on, of the first
/// function with the name of `import`, if that function has the signature of
/// `import`.
pub open spec fn resolve(
    import: ExternFunctionView,
    host: Seq<ExternFunctionView>,
    from: int,
) -> Result<
    usize,
    LinkError,
>
    decreases host.len() - from,
{
    if from < 0 || from >= host.len() {
        Err(LinkError::Unresolved(import.name))
    } else if host[from].name == import.name {
        if host[from].signature == import.signature {
            Ok(from as usize)
        } else {
            Err(LinkError::Mismatch(import.name))
        }
    } else {
        resolve(import, host, from + 1)
    }
}

/// The callables for the imports from `from` on, appended to `acc`: each
/// import bound to the function of the host that `resolve` finds.
pub open spec fn bind_imports(
    imports: Seq<ExternFunctionView>,
    host: Seq<ExternFunctionView>,
    from: int,
    acc: Seq<CallableView>,
) -> Result<Seq<CallableView>, LinkError>
    decreases imports.len() - from,
{
    if from < 0 || from >= imports.len() {
        Ok(acc)
    } else {
        match resolve(imports[from], host, 0) {
            Ok(function) => bind_imports(
                imports,
                host,
                from + 1,
                acc.push(CallableView::HostFunction { name: imports[from].name, function }),
            ),
            Err(e) => Err(e),
        }
    }
}

/// The functions of the module as callables.
pub open spec fn wrapped(wasm: Seq<WasmFunctionView>) -> Seq<CallableView> {
    Seq::new(wasm.len(), |i: int| CallableView::WasmFunction(wasm[i]))
}

/// The instance of the module `module` with the functions `host` of the
/// host: the imports bound to host functions, behind them the functions of
/// the module; the memory built from the blueprint; the operand stack and the
/// call stack empty.
pub open spec fn instantiate(module: ModuleView, host: Seq<ExternFunctionView>) -> Result<
    InstanceView,
    LinkError,
> {
    match bind_imports(module.functions.imports, host, 0, Seq::empty()) {
        Ok(bound) => match module.memory_blueprint {
            Some(blueprint) => match initial_data(blueprint) {
                Ok(data) => Ok(
                    InstanceView {
                        functions: bound + wrapped(module.functions.wasm),
                        memory: Some(
                            MemoryView {
                                data,
                                page_limit: blueprint.page_limit,
                                name: blueprint.export_name,
                            },
                        ),
                        stack: Seq::empty(),
                        frames: Seq::empty(),
                    },
                ),
                Err(e) => Err(LinkError::Memory(e)),
            },
            None => Ok(
                InstanceView {
                    functions: bound + wrapped(module.functions.wasm),
                    memory: None,
                    stack: Seq::empty(),
                    frames: Seq::empty(),
                },
            ),
        },
        Err(e) => Err(e),
    }
}

/// Finds the function of the host that `import` names.
pub fn resolve_import(import: &ExternFunction, host: &Vec<HostFunction>) -> (r: Result<
    usize,
    ExecutionError,
>)
    ensures
        match resolve(import.deep_view(), host.deep_view(), 0) {
            Ok(function) => r == Ok::<usize, ExecutionError>(function),
            Err(model) => r matches Err(e) && link_failed(e, model),
        },
{
    let mut i: usize = 0;
    while i < host.len()
        invariant
            i <= host.len(),
            resolve(import.deep_view(), host.deep_view(), 0) == resolve(
                import.deep_view(),
                host.deep_view(),
                i as int,
            ),
        decreases host.len() - i,
    {
        assert(host.deep_view()[i as int] == host[i as int].deep_view());
        if host[i].name.same_as(&import.name) {
            if host[i].signature.same_as(&import.signature) {
                return Ok(i);
            } else {
                return Err(ExecutionError::SignatureMismatch(import.name.duplicate()));
            }
        }
        i = i + 1;
    }
    Err(ExecutionError::UnresolvedImport(import.name.duplicate()))
}

/// Reverses a list.
pub fn reversed<T>(list: Vec<T>) -> (r: Vec<T>)
    ensures
        r@ == list@.reverse(),
{
    let mut rest = list;
    let mut r: Vec<T> = Vec::new();
    let ghost all = rest@;
    while rest.len() > 0
        invariant
            rest@.len() + r@.len() == all.len(),
            rest@ == all.subrange(0, rest@.len() as int),
            r@ == all.subrange(rest@.len() as int, all.len() as int).reverse(),
        decreases rest@.len(),
    {
        let ghost before = rest@;
        let ghost done = r@;
        match rest.pop() {
            Some(item) => {
                r.push(item);
            },
            None => {},
        }
        assert(rest@ =~= all.subrange(0, rest@.len() as int));
        assert(r@ =~= all.subrange(rest@.len() as int, all.len() as int).reverse());
    }
    assert(r@ =~= all.reverse());
    r
}

/// Appends the functions of the module to the table, as callables.
pub fn wrap_functions(functions: &mut Vec<Callable>, wasm: Vec<WasmFunction>)
    ensures
        final(functions).deep_view() == old(functions).deep_view() + wrapped(wasm.deep_view()),
{
    let ghost base = functions.deep_view();
    let ghost all = wasm.deep_view();
    let ghost items = wasm@;
    let mut rest = reversed(wasm);
    assert(functions.deep_view() =~= base + wrapped(all.subrange(0, 0)));
    while rest.len() > 0
        invariant
            rest@.len() <= items.len(),
            all.len() == items.len(),
            forall|k: int| 0 <= k < items.len() ==> all[k] == (#[trigger] items[k]).deep_view(),
            rest@ == items.reverse().subrange(0, rest@.len() as int),
            functions.deep_view() == base + wrapped(
                all.subrange(0, items.len() - rest@.len()),
            ),
        decreases rest@.len(),
    {
        let ghost before = functions.deep_view();
        let ghost done = items.len() - rest@.len();
        match rest.pop() {
            Some(function) => {
                assert(function == items[done]);
                let callable = Callable::WasmFunction(function);
                let ghost model = callable.deep_view();
                functions.push(callable);
                assert(functions.deep_view() =~= before.push(model));
            },
            None => {},
        }
        assert(rest@ =~= items.reverse().subrange(0, rest@.len() as int));
        assert(functions.deep_view() =~= base + wrapped(
            all.subrange(0, items.len() - rest@.len()),
        ));
    }
    assert(all.subrange(0, items.len() as int) =~= all);
}

impl Instance {
    /// Instantiates `module` with the functions `host` that the host offers.
    #[verifier::loop_isolation(false)]
    pub fn new(module: Module, host: &Vec<HostFunction>) -> (r: Result<Instance, ExecutionError>)
        ensures
            match instantiate(module.deep_view(), host.deep_view()) {
                Ok(model) => r matches Ok(instance) && instance@ == model && instance.wf(),
                Err(model) => r matches Err(e) && link_failed(e, model),
            },
    {
        let Module { functions: table, memory_blueprint } = module;
        let ghost imports = table.imports.deep_view();
        let mut functions: Vec<Callable> = Vec::new();
        assert(functions.deep_view() =~= Seq::empty());
        let mut i: usize = 0;
        while i < table.imports.len()
            invariant
                i <= table.imports.len(),
                bind_imports(imports, host.deep_view(), 0, Seq::empty()) == bind_imports(
                    imports,
                    host.deep_view(),
                    i as int,
                    functions.deep_view(),
                ),
            decreases table.imports.len() - i,
        {
            assert(imports[i as int] == table.imports[i as int].deep_view());
            let function = resolve_import(&table.imports[i], host)?;
            let callable = Callable::HostFunction {
                name: table.imports[i].name.duplicate(),
                function,
            };
            let ghost before = functions.deep_view();
            let ghost model = callable.deep_view();
            functions.push(callable);
            assert(functions.deep_view() =~= before.push(model));
            i = i + 1;
        }
        wrap_functions(&mut functions, table.wasm);
        let memory = match memory_blueprint {
            Some(blueprint) => match Memory::from_blueprint(blueprint) {
                Ok(memory) => Some(memory),
                Err(e) => {
                    return Err(e);
                },
            },
            None => None,
        };
        let call_stack: Vec<Frame> = Vec::new();
        assert(call_stack.deep_view() =~= Seq::empty());
        Ok(Instance { functions, memory, operand_stack: OperandStack::new(), call_stack })
    }

    /// The values on the operand stack, the top last.
    pub fn operand_stack(&self) -> (r: &Vec<Value>)
        ensures
            r@ == self@.stack,
    {
        self.operand_stack.values()
    }

    /// The memory.
    pub fn memory(&self) -> (r: &Option<Memory>)
        ensures
            *r == self.memory,
    {
        &self.memory
    }

    /// Takes the top of the operand stack.
    pub fn op_stack_pop(&mut self) -> (r: Result<Value, ExecutionError>)
        ensures
            r == pop_result::<Value>(old(self)@.stack),
            final(self)@ == (InstanceView {
                stack: pop_rest(old(self)@.stack),
                ..old(self)@
            }),
            final(self).memory == old(self).memory,
            final(self).functions == old(self).functions,
            old(self).wf() ==> final(self).wf(),
    {
        self.operand_stack.pop::<Value>()
    }
}

/// Tells whether `callable` is a function of the module that is exported as
/// `_start`.
pub fn exported_as_start(callable: &Callable) -> (r: bool)
    ensures
        r == is_start(callable.deep_view()),
{
    match callable {
        Callable::WasmFunction(f) => match &f.export_name {
            Some(name) => {
                let wanted = "_start".to_owned();
                *name == wanted
            },
            None => false,
        },
        _ => false,
    }
}

impl Instance {
    /// Calls the function with the index `function_index`: see `call`.
    pub fn exec_function(&mut self, function_index: usize) -> (r: Outcome)
        ensures
            final(self).memory == old(self).memory,
            final(self).functions == old(self).functions,
            (final(self)@, r) == call(old(self)@, function_index),
            old(self).wf() ==> final(self).wf(),
    {
        let ghost before = self@;
        proof {
            if self.wf() {
                lemma_call_keeps_frames_valid(before, function_index);
            }
        }
        call_function(&self.functions, &mut self.call_stack, function_index)
    }

    /// Prepares a run: unwinds the call stack and calls the function that is
    /// exported as `_start`.
    pub fn exec_start(&mut self) -> (r: Result<(), ExecutionError>)
        ensures
            final(self).memory == old(self).memory,
            final(self).functions == old(self).functions,
            match begin(old(self)@) {
                Ok(ready) => r == Ok::<(), ExecutionError>(()) && final(self)@ == ready,
                Err(e) => r == Err::<(), ExecutionError>(e) && final(self)@ == old(self)@,
            },
            old(self).wf() ==> final(self).wf(),
    {
        proof {
            lemma_start_keeps_frames_valid(self@, 0);
        }
        let mut i: usize = 0;
        while i < self.functions.len()
            invariant
                i <= self.functions.len(),
                *self == *old(self),
                find_start(self@.functions, 0) == find_start(self@.functions, i as int),
            decreases self.functions.len() - i,
        {
            assert(self@.functions[i as int] == self.functions[i as int].deep_view());
            if exported_as_start(&self.functions[i]) {
                unwind(&mut self.call_stack);
                let frame = Frame { function_index: i, levels: Vec::new(), pc: 0 };
                let ghost model = frame.deep_view();
                assert(model.levels =~= Seq::empty());
                self.call_stack.push(frame);
                assert(self.call_stack.deep_view() =~= seq![model]);
                return Ok(());
            }
            i = i + 1;
        }
        Err(ExecutionError::NoStart)
    }

    /// Starts a run at the function that is exported as `_start` and takes up
    /// to `fuel` steps.  Without such a function the run traps with `NoStart`.
    pub fn start(&mut self, fuel: u64) -> (r: Outcome)
        requires
            old(self).wf(),
        ensures
            final(self).wf(),
            final(self).functions == old(self).functions,
            (final(self)@, r) == start(old(self)@, fuel as nat),
    {
        match self.exec_start() {
            Ok(()) => self.run(fuel),
            Err(e) => Outcome::Trapped(e),
        }
    }
}

impl Instance {
    /// Tells whether the invariant of the instance holds.
    pub fn is_well_formed(&self) -> (r: bool)
        ensures
            r == self.wf(),
    {
        let memory_bounded = match &self.memory {
            Some(memory) => memory.is_well_formed(),
            None => true,
        };
        if !memory_bounded {
            return false;
        }
        let mut i: usize = 0;
        while i < self.call_stack.len()
            invariant
                i <= self.call_stack.len(),
                forall|k: int|
                    0 <= k < i ==> frame_valid(self@.functions, #[trigger] self@.frames[k]),
            decreases self.call_stack.len() - i,
        {
            assert(self@.frames[i as int] == self.call_stack[i as int].deep_view());
            let frame = &self.call_stack[i];
            match host_of(&self.functions, frame) {
                Some(_) => {
                    if frame.levels.len() != 0 || frame.pc != 0 {
                        return false;
                    }
                },
                None => match current_code(&self.functions, frame) {
                    Some(code) => {
                        if frame.pc > code.len() {
                            return false;
                        }
                    },
                    None => {
                        return false;
                    },
                },
            }
            i = i + 1;
        }
        true
    }

    /// Ends the call of a function of the host: takes its frame from the call
    /// stack, so that the machine goes on behind the call.  The host calls
    /// this when it has performed the function and put its results on the
    /// operand stack.  Where the innermost call is none of a function of the
    /// host, nothing changes.
    pub fn host_return(&mut self)
        ensures
            final(self)@ == old(self)@.host_returned(),
            final(self).memory == old(self).memory,
            final(self).operand_stack == old(self).operand_stack,
            final(self).functions == old(self).functions,
            old(self).wf() ==> final(self).wf(),
    {
        proof {
            if self.wf() {
                lemma_return_keeps_frames_valid(self@.functions, self@.frames);
            }
        }
        end_host_call(&self.functions, &mut self.call_stack);
    }

    /// Unwinds the call stack, as a trap does.  A host whose function fails
    /// ends the run with this.
    pub fn unwind(&mut self)
        ensures
            final(self)@ == old(self)@.unwound(old(self)@.stack, old(self)@.memory),
            final(self).memory == old(self).memory,
            final(self).functions == old(self).functions,
            old(self).wf() ==> final(self).wf(),
    {
        unwind(&mut self.call_stack);
    }
}

} // verus!
