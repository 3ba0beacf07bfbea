//! The stack machine as a mathematical function: one step of an instance.

use vstd::prelude::*;
use crate::exec::error::ExecutionError;
use crate::exec::instruction::{Instruction, InstructionView};
use crate::exec::machine::basic_effect;
use crate::exec::memory::MemoryView;
use crate::exec::operand_stack::{pop_rest, typed_top};
use crate::exec::types::{CallableView, Value};
use crate::parse::opcode::Opcode;
use crate::parse::types::Type;

verus! {

/// One step into a nested instruction list: the place of the block, loop or
/// conditional in the list around it, and, for a conditional, the branch.
#[derive(Clone, Copy, Debug, PartialEq, Eq, Structural)]
pub struct Level {
    pub index: usize,
    pub else_branch: bool,
}

/// The model of a `Level`.
pub struct LevelView {
    pub index: nat,
    pub else_branch: bool,
}

impl DeepView for Level {
    type V = LevelView;

    open spec fn deep_view(&self) -> LevelView {
        LevelView { index: self.index as nat, else_branch: self.else_branch }
    }
}

/// The model of an active call: the function, the nested lists that have
/// been entered, outermost first, and the place of the next instruction in
/// the innermost list.
pub struct FrameView {
    pub function_index: nat,
    pub levels: Seq<LevelView>,
    pub pc: nat,
}

/// The model of an instance: the functions table, the memory, the operand
/// stack and the call stack, the innermost call last.
pub struct InstanceView {
    pub functions: Seq<CallableView>,
    pub memory: Option<MemoryView>,
    pub stack: Seq<Value>,
    pub frames: Seq<FrameView>,
}

/// How a step of the machine ended.
#[derive(Debug, PartialEq, Eq)]
pub enum Outcome {
    /// The step is done and the machine can take another.
    Running,
    /// The call stack is empty: there is nothing to run.
    Finished,
    /// The program trapped.  The call stack has been unwound; the operand
    /// stack and the memory are as the trap left them.
    Trapped(ExecutionError),
    /// The program called the function of the host with this place in the
    /// host's list.  The call is on the call stack, and every step ends like
    /// this, until the host hands back the result; then the machine goes on
    /// behind the call.
    HostCall { function: usize },
    /// The machine passed over an instruction that it does not execute.
    Unimplemented(Opcode),
}

/// The list that the level `level` leads into from the instruction
/// `instruction`: the body of a block or a loop, or a branch of a conditional.
pub open spec fn child(instruction: InstructionView, level: LevelView) -> Option<
    Seq<InstructionView>,
> {
    match instruction {
        InstructionView::Block { body, .. } => if level.else_branch {
            None
        } else {
            Some(body)
        },
        InstructionView::Loop { body, .. } => if level.else_branch {
            None
        } else {
            Some(body)
        },
        InstructionView::If { then_body, else_body, .. } => Some(
            if level.else_branch {
                else_body
            } else {
                then_body
            },
        ),
        _ => None,
    }
}

/// The list that the levels from `from` on lead into from the list `code`.
pub open spec fn descend(code: Seq<InstructionView>, levels: Seq<LevelView>, from: int) -> Option<
    Seq<InstructionView>,
>
    decreases levels.len() - from,
{
    if from < 0 || from >= levels.len() {
        Some(code)
    } else if levels[from].index < code.len() {
        match child(code[levels[from].index as int], levels[from]) {
            Some(inner) => descend(inner, levels, from + 1),
            None => None,
        }
    } else {
        None
    }
}

/// The instruction list that the frame `frame` is in.
pub open spec fn frame_code(functions: Seq<CallableView>, frame: FrameView) -> Option<
    Seq<InstructionView>,
> {
    if frame.function_index < functions.len() {
        match functions[frame.function_index as int] {
            CallableView::WasmFunction(f) => descend(f.body, frame.levels, 0),
            _ => None,
        }
    } else {
        None
    }
}

/// The place in the host's list of the function that the frame `frame` is a
/// call of, if it is a call of a function of the host.
pub open spec fn frame_host(functions: Seq<CallableView>, frame: FrameView) -> Option<usize> {
    if frame.function_index < functions.len() {
        match functions[frame.function_index as int] {
            CallableView::HostFunction { function, .. } => Some(function),
            _ => None,
        }
    } else {
        None
    }
}

/// Whether the frame `frame` is a call of a function of the table: of a
/// function of the module, in an instruction list of its body, at a place of
/// that list or at its end; or of a function of the host, which has no body
/// to be in.
pub open spec fn frame_valid(functions: Seq<CallableView>, frame: FrameView) -> bool {
    match frame_host(functions, frame) {
        Some(_) => frame.levels.len() == 0 && frame.pc == 0,
        None => frame_code(functions, frame) matches Some(code) && frame.pc <= code.len(),
    }
}

/// The call stack after the host has handed back the result of its function:
/// the call stack without its innermost frame, if that is a call of a
/// function of the host.
pub open spec fn returned(functions: Seq<CallableView>, frames: Seq<FrameView>) -> Seq<FrameView> {
    if frames.len() > 0 && frame_host(functions, frames.last()) is Some {
        frames.drop_last()
    } else {
        frames
    }
}

/// Whether every frame of `m` is a call of a function of the table, at a
/// place of its body.
pub open spec fn frames_valid(m: InstanceView) -> bool {
    forall|i: int| 0 <= i < m.frames.len() ==> frame_valid(m.functions, #[trigger] m.frames[i])
}

impl InstanceView {
    /// The invariant of an instance: the memory is a whole number of pages
    /// within its limit, and every frame is in an instruction list of the
    /// table.
    pub open spec fn wf(self) -> bool {
        &&& self.memory matches Some(m) ==> m.wf()
        &&& frames_valid(self)
    }

    /// This instance with another innermost frame.
    pub open spec fn with_top(self, frame: FrameView) -> InstanceView {
        InstanceView { frames: self.frames.drop_last().push(frame), ..self }
    }

    /// This instance after the host has handed back the result of its
    /// function: the call of that function has ended.
    pub open spec fn host_returned(self) -> InstanceView {
        InstanceView { frames: returned(self.functions, self.frames), ..self }
    }

    /// This instance after a trap: the call stack is unwound, the operand
    /// stack and the memory are those that the trap left.
    pub open spec fn unwound(self, stack: Seq<Value>, memory: Option<MemoryView>) -> InstanceView {
        InstanceView { stack, memory, frames: Seq::empty(), ..self }
    }
}

/// The frame `frame` one instruction further.
pub open spec fn advanced(frame: FrameView) -> FrameView {
    FrameView { pc: frame.pc + 1, ..frame }
}

/// The frame `frame` inside the nested list that the instruction at its
/// place holds: in the branch `else_branch`, at the start.
pub open spec fn entered(frame: FrameView, else_branch: bool) -> FrameView {
    FrameView {
        levels: frame.levels.push(LevelView { index: frame.pc, else_branch }),
        pc: 0,
        ..frame
    }
}

/// The frame `frame` behind the nested list that it is in.
pub open spec fn left(frame: FrameView) -> FrameView {
    FrameView {
        levels: frame.levels.drop_last(),
        pc: frame.levels.last().index + 1,
        ..frame
    }
}

/// The call stack after the call of the function with the index
/// `function_index`, and how the call ended.  The called function gets a
/// frame on the call stack: a function of the module at the start of its
/// body; a function of the host for as long as the host performs it.  An
/// index beyond the table traps and unwinds the call stack.
pub open spec fn called(
    functions: Seq<CallableView>,
    frames: Seq<FrameView>,
    function_index: usize,
) -> (
    Seq<FrameView>,
    Outcome,
) {
    if function_index >= functions.len() {
        (
            Seq::empty(),
            Outcome::Trapped(
                ExecutionError::FunctionIndexOutOfBounds {
                    index: function_index,
                    len: functions.len() as usize,
                },
            ),
        )
    } else {
        let frame = FrameView {
            function_index: function_index as nat,
            levels: Seq::empty(),
            pc: 0,
        };
        match functions[function_index as int] {
            CallableView::WasmFunction(_) => (frames.push(frame), Outcome::Running),
            CallableView::HostFunction { function, .. } => (
                frames.push(frame),
                Outcome::HostCall { function },
            ),
        }
    }
}

/// The call of the function with the index `function_index` in the instance
/// `m`: see `called`.
pub open spec fn call(m: InstanceView, function_index: usize) -> (InstanceView, Outcome) {
    let (frames, outcome) = called(m.functions, m.frames, function_index);
    (InstanceView { frames, ..m }, outcome)
}

/// What the instruction `instruction` does to the instance `m`, whose
/// innermost frame is at that instruction.
pub open spec fn execute(m: InstanceView, instruction: InstructionView) -> (InstanceView, Outcome) {
    let frame = m.frames.last();
    let next = m.with_top(advanced(frame));
    match instruction {
        InstructionView::Block { .. } | InstructionView::Loop { .. } => (
            m.with_top(entered(frame, false)),
            Outcome::Running,
        ),
        InstructionView::If { .. } => match typed_top(m.stack, Type::I32) {
            Ok(condition) => (
                InstanceView { stack: pop_rest(m.stack), ..m }.with_top(
                    entered(frame, condition->I32_0 == 0),
                ),
                Outcome::Running,
            ),
            Err(e) => (m.unwound(pop_rest(m.stack), m.memory), Outcome::Trapped(e)),
        },
        InstructionView::BrTable { .. } => (next, Outcome::Unimplemented(Opcode::BrTable)),
        InstructionView::Simple(Instruction::Return) => (
            InstanceView { frames: m.frames.drop_last(), ..m },
            Outcome::Running,
        ),
        InstructionView::Simple(Instruction::Call { function_index }) => call(next, function_index),
        InstructionView::Simple(simple) => match basic_effect(simple, m.stack, m.memory) {
            Some(effect) => match effect.result {
                Ok(_) => (
                    InstanceView { stack: effect.stack, memory: effect.memory, ..next },
                    Outcome::Running,
                ),
                Err(e) => (m.unwound(effect.stack, effect.memory), Outcome::Trapped(e)),
            },
            None => (next, Outcome::Unimplemented(simple.opcode())),
        },
    }
}

/// One step of the instance `m`.  While the innermost call is one of a
/// function of the host, the machine waits for the host.  At the end of a
/// nested list the machine goes on behind it; at the end of a body the call
/// returns; else the machine executes the next instruction.  A frame that is
/// in no instruction list of the table ends the run; the invariant of an
/// instance excludes such a frame.
pub open spec fn step(m: InstanceView) -> (InstanceView, Outcome) {
    if m.frames.len() == 0 {
        (m, Outcome::Finished)
    } else if frame_host(m.functions, m.frames.last()) is Some {
        (m, Outcome::HostCall { function: frame_host(m.functions, m.frames.last())->Some_0 })
    } else {
        let frame = m.frames.last();
        match frame_code(m.functions, frame) {
            Some(code) => if frame.pc >= code.len() {
                if frame.levels.len() == 0 {
                    (InstanceView { frames: m.frames.drop_last(), ..m }, Outcome::Running)
                } else {
                    (m.with_top(left(frame)), Outcome::Running)
                }
            } else {
                execute(m, code[frame.pc as int])
            },
            None => (m, Outcome::Finished),
        }
    }
}

/// Up to `fuel` steps of the instance `m`: the machine stops at the first
/// step that does not end as `Running`.
pub open spec fn run(m: InstanceView, fuel: nat) -> (InstanceView, Outcome)
    decreases fuel,
{
    if fuel == 0 {
        (m, Outcome::Running)
    } else {
        let (after, outcome) = step(m);
        if outcome is Running {
            run(after, (fuel - 1) as nat)
        } else {
            (after, outcome)
        }
    }
}

/// Whether the callable `c` is a function of the module that is exported as
/// `_start`.
pub open spec fn is_start(c: CallableView) -> bool {
    c matches CallableView::WasmFunction(f) && f.export_name == Some("_start"@)
}

/// The index of the first function at or behind `from` that is exported as
/// `_start`.
pub open spec fn find_start(functions: Seq<CallableView>, from: int) -> Option<int>
    decreases functions.len() - from,
{
    if from < 0 || from >= functions.len() {
        None
    } else if is_start(functions[from]) {
        Some(from)
    } else {
        find_start(functions, from + 1)
    }
}

/// The instance `m` at the start of a run: the call stack holds one call, of
/// the function that is exported as `_start`; the operand stack and the
/// memory are as they were.  Without such a function there is no run.
pub open spec fn begin(m: InstanceView) -> Result<InstanceView, ExecutionError> {
    match find_start(m.functions, 0) {
        Some(index) => Ok(
            InstanceView {
                frames: seq![
                    FrameView { function_index: index as nat, levels: Seq::empty(), pc: 0 },
                ],
                ..m
            },
        ),
        None => Err(ExecutionError::NoStart),
    }
}

/// A run of the instance `m` from `_start`, of up to `fuel` steps.
pub open spec fn start(m: InstanceView, fuel: nat) -> (InstanceView, Outcome) {
    match begin(m) {
        Ok(ready) => run(ready, fuel),
        Err(e) => (m, Outcome::Trapped(e)),
    }
}

} // verus!
