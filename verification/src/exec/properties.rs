//! What holds of every step of the machine.

use vstd::prelude::*;
use crate::exec::control::{
    advanced,
    begin,
    call,
    called,
    child,
    descend,
    entered,
    find_start,
    frame_code,
    frame_host,
    frame_valid,
    frames_valid,
    is_start,
    left,
    returned,
    run,
    start,
    step,
    FrameView,
    InstanceView,
    LevelView,
    Outcome,
};
use crate::exec::instruction::{Instruction, InstructionView};
use crate::exec::machine::{
    basic_effect,
    grow_effect,
};
use crate::exec::memory::{MEMORY_PAGE_SIZE, MemoryView};
use crate::exec::numeric::u32_of;
use crate::exec::types::{CallableView, Value};

verus! {

/// An arithmetic instruction that does not trap takes its operands from the
/// operand stack and puts one result back: the stack shrinks by one value
/// for two operands, keeps its size for one, and grows by one value for a
/// constant.
pub proof fn lemma_stack_discipline(
    instruction: Instruction,
    stack: Seq<Value>,
    memory: Option<MemoryView>,
)
    requires
        instruction.shape() is Some,
        basic_effect(instruction, stack, memory)->Some_0.result is Ok,
    ensures
        instruction.shape()->Some_0.operands <= 2,
        basic_effect(instruction, stack, memory)->Some_0.stack.len() == stack.len()
            - instruction.shape()->Some_0.operands + 1,
        basic_effect(instruction, stack, memory)->Some_0.memory == memory,
{
}

/// An instruction that works on the operand stack and the memory keeps the
/// invariant of the memory: its size stays a whole number of pages within the
/// page limit.
pub proof fn lemma_basic_effect_keeps_memory_bounds(
    instruction: Instruction,
    stack: Seq<Value>,
    memory: Option<MemoryView>,
)
    requires
        memory matches Some(m) ==> m.wf(),
        basic_effect(instruction, stack, memory) is Some,
    ensures
        basic_effect(instruction, stack, memory)->Some_0.memory matches Some(m) ==> m.wf(),
        basic_effect(instruction, stack, memory)->Some_0.memory is Some <==> memory is Some,
        basic_effect(instruction, stack, memory)->Some_0.result is Err ==> basic_effect(
            instruction,
            stack,
            memory,
        )->Some_0.memory == memory,
{
    match instruction {
        Instruction::MemoryGrow => {
            match memory {
                Some(m) => {
                    let effect = grow_effect(stack, memory);
                    if effect.result is Ok {
                        let after = effect.memory->Some_0;
                        let wanted: int = m.pages() + u32_of(stack.last()->I32_0);
                        assert(after.data.len() == wanted * MEMORY_PAGE_SIZE);
                        assert(after.data.len() % (MEMORY_PAGE_SIZE as nat) == 0 && m.page_limit.start
                            * MEMORY_PAGE_SIZE <= after.data.len() <= m.page_limit.end
                            * MEMORY_PAGE_SIZE && after.data.len() <= usize::MAX)
                            by (nonlinear_arith)
                            requires
                                after.data.len() == wanted * 4096,
                                m.data.len() / 4096 <= wanted,
                                wanted <= m.page_limit.end,
                                wanted <= usize::MAX / 4096,
                                m.page_limit.start * 4096 <= m.data.len(),
                                m.data.len() % 4096 == 0,
                                MEMORY_PAGE_SIZE == 4096,
                        ;
                    }
                },
                None => {},
            }
        },
        _ => {},
    }
}

/// A step keeps the invariant of the memory, and keeps the functions table.
pub proof fn lemma_step_keeps_memory_bounds(m: InstanceView)
    requires
        m.memory matches Some(memory) ==> memory.wf(),
    ensures
        step(m).0.memory matches Some(memory) ==> memory.wf(),
        step(m).0.functions == m.functions,
{
    let (after, outcome) = step(m);
    if after.memory != m.memory {
        let frame = m.frames.last();
        let code = frame_code(m.functions, frame)->Some_0;
        let instruction = code[frame.pc as int];
        match instruction {
            InstructionView::Simple(simple) => {
                if basic_effect(simple, m.stack, m.memory) is Some {
                    lemma_basic_effect_keeps_memory_bounds(simple, m.stack, m.memory);
                }
            },
            _ => {},
        }
    }
}

/// A run keeps the invariant of the memory, and keeps the functions table.
pub proof fn lemma_run_keeps_memory_bounds(m: InstanceView, fuel: nat)
    requires
        m.memory matches Some(memory) ==> memory.wf(),
    ensures
        run(m, fuel).0.memory matches Some(memory) ==> memory.wf(),
        run(m, fuel).0.functions == m.functions,
    decreases fuel,
{
    if fuel > 0 {
        lemma_step_keeps_memory_bounds(m);
        if step(m).1 is Running {
            lemma_run_keeps_memory_bounds(step(m).0, (fuel - 1) as nat);
        }
    }
}

/// A step that traps unwinds the call stack, and the machine then has
/// nothing left to run: the next step ends as `Finished` and changes nothing.
pub proof fn lemma_trap_unwinds(m: InstanceView)
    requires
        step(m).1 is Trapped,
    ensures
        step(m).0.frames.len() == 0,
        step(step(m).0) == (step(m).0, Outcome::Finished),
{
}

/// A run stops at the first step that does not end as `Running`: where the
/// first step traps, the run is that step, whatever the budget.
pub proof fn lemma_run_stops_at_trap(m: InstanceView, fuel: nat)
    requires
        fuel > 0,
        step(m).1 is Trapped,
    ensures
        run(m, fuel) == step(m),
{
}

/// The number of steps that a run of the instance `m` with the budget `fuel`
/// takes.
pub open spec fn steps_taken(m: InstanceView, fuel: nat) -> nat
    decreases fuel,
{
    if fuel == 0 {
        0
    } else if step(m).1 is Running {
        1 + steps_taken(step(m).0, (fuel - 1) as nat)
    } else {
        1
    }
}

/// A run returns within its budget: it takes no more steps than `fuel`, and
/// a budget of the steps that it takes gives the same run.  A run that traps
/// has taken a step for each instruction up to the trap and none after it.
pub proof fn lemma_run_is_bounded(m: InstanceView, fuel: nat)
    ensures
        steps_taken(m, fuel) <= fuel,
        run(m, steps_taken(m, fuel)) == run(m, fuel),
    decreases fuel,
{
    if fuel > 0 && step(m).1 is Running {
        lemma_run_is_bounded(step(m).0, (fuel - 1) as nat);
    }
}

/// A run can be taken in parts: a budget of `first + second` steps gives
/// what a run of `first` steps gives, continued for `second` steps if it
/// ended as `Running`.
pub proof fn lemma_run_resumes(m: InstanceView, first: nat, second: nat)
    ensures
        run(m, first + second) == if run(m, first).1 is Running {
            run(run(m, first).0, second)
        } else {
            run(m, first)
        },
    decreases first,
{
    if first > 0 {
        let (after, outcome) = step(m);
        if outcome is Running {
            lemma_run_resumes(after, (first - 1) as nat, second);
            assert((first + second - 1) as nat == (first - 1) as nat + second);
        }
    } else {
        assert(first + second == second);
    }
}

/// One more level leads from the list that the levels before it lead into,
/// into the nested list at its place.
pub proof fn lemma_descend_push(
    code: Seq<InstructionView>,
    levels: Seq<LevelView>,
    level: LevelView,
    from: int,
)
    requires
        0 <= from <= levels.len(),
    ensures
        descend(code, levels.push(level), from) == match descend(code, levels, from) {
            Some(inner) => if level.index < inner.len() {
                child(inner[level.index as int], level)
            } else {
                None
            },
            None => None,
        },
    decreases levels.len() - from,
{
    let longer = levels.push(level);
    if from < levels.len() {
        assert(longer[from] == levels[from]);
        if levels[from].index < code.len() {
            match child(code[levels[from].index as int], levels[from]) {
                Some(inner) => {
                    lemma_descend_push(inner, levels, level, from + 1);
                },
                None => {},
            }
        }
    } else {
        assert(longer[from] == level);
        if level.index < code.len() {
            match child(code[level.index as int], level) {
                Some(inner) => {
                    assert(descend(inner, longer, from + 1) == Some(inner));
                },
                None => {},
            }
        }
    }
}

/// A frame that enters the nested list at its place is in that list.
pub proof fn lemma_entered_valid(functions: Seq<CallableView>, frame: FrameView, else_branch: bool)
    requires
        frame_valid(functions, frame),
        frame_host(functions, frame) is None,
        frame.pc < frame_code(functions, frame)->Some_0.len(),
        child(
            frame_code(functions, frame)->Some_0[frame.pc as int],
            LevelView { index: frame.pc, else_branch },
        ) is Some,
    ensures
        frame_valid(functions, entered(frame, else_branch)),
{
    let body = functions[frame.function_index as int]->WasmFunction_0.body;
    lemma_descend_push(body, frame.levels, LevelView { index: frame.pc, else_branch }, 0);
}

/// A frame that leaves the nested list that it is in is in the list around
/// it, behind the instruction that holds the nested list.
pub proof fn lemma_left_valid(functions: Seq<CallableView>, frame: FrameView)
    requires
        frame_valid(functions, frame),
        frame_host(functions, frame) is None,
        frame.levels.len() > 0,
    ensures
        frame_valid(functions, left(frame)),
{
    let body = functions[frame.function_index as int]->WasmFunction_0.body;
    let outer = frame.levels.drop_last();
    assert(frame.levels =~= outer.push(frame.levels.last()));
    lemma_descend_push(body, outer, frame.levels.last(), 0);
}

/// A step keeps every frame in an instruction list of the table.
pub proof fn lemma_step_keeps_frames_valid(m: InstanceView)
    requires
        frames_valid(m),
    ensures
        frames_valid(step(m).0),
{
    let (after, outcome) = step(m);
    if m.frames.len() > 0 && frame_host(m.functions, m.frames.last()) is None {
        let frame = m.frames.last();
        assert(frame_valid(m.functions, m.frames[m.frames.len() - 1]));
        let code = frame_code(m.functions, frame)->Some_0;
        if frame.pc >= code.len() {
            if frame.levels.len() > 0 {
                lemma_left_valid(m.functions, frame);
            }
        } else {
            let instruction = code[frame.pc as int];
            assert(frame_valid(m.functions, advanced(frame)));
            match instruction {
                InstructionView::Block { .. } | InstructionView::Loop { .. } => {
                    lemma_entered_valid(m.functions, frame, false);
                },
                InstructionView::If { .. } => {
                    lemma_entered_valid(m.functions, frame, true);
                    lemma_entered_valid(m.functions, frame, false);
                },
                _ => {},
            }
        }
        assert forall|i: int| 0 <= i < after.frames.len() implies frame_valid(
            after.functions,
            #[trigger] after.frames[i],
        ) by {
            if i < m.frames.len() - 1 {
                assert(after.frames[i] == m.frames[i]);
            }
        }
    }
}

/// The call of a function keeps every frame in an instruction list of the
/// table.
pub proof fn lemma_call_keeps_frames_valid(m: InstanceView, function_index: usize)
    requires
        frames_valid(m),
    ensures
        frames_valid(call(m, function_index).0),
{
    let after = call(m, function_index).0;
    assert forall|i: int| 0 <= i < after.frames.len() implies frame_valid(
        after.functions,
        #[trigger] after.frames[i],
    ) by {
        if i < m.frames.len() {
            assert(after.frames[i] == m.frames[i]);
        }
    }
}

/// The return from a function of the host keeps every frame a call of a
/// function of the table.
pub proof fn lemma_return_keeps_frames_valid(functions: Seq<CallableView>, frames: Seq<FrameView>)
    requires
        forall|i: int| 0 <= i < frames.len() ==> frame_valid(functions, #[trigger] frames[i]),
    ensures
        forall|i: int|
            0 <= i < returned(functions, frames).len() ==> frame_valid(
                functions,
                #[trigger] returned(functions, frames)[i],
            ),
{
    let after = returned(functions, frames);
    assert forall|i: int| 0 <= i < after.len() implies frame_valid(
        functions,
        #[trigger] after[i],
    ) by {
        assert(after[i] == frames[i]);
    }
}

/// Every call by index is on the call stack while it runs: the call of a
/// function of the table puts one frame for that function onto the call
/// stack, and for a function of the host the return takes it off again, so
/// that the call stack is what it was before the call.
pub proof fn lemma_call_is_on_the_call_stack(
    functions: Seq<CallableView>,
    frames: Seq<FrameView>,
    function_index: usize,
)
    requires
        function_index < functions.len(),
    ensures
        called(functions, frames, function_index).0.len() == frames.len() + 1,
        called(functions, frames, function_index).0.drop_last() == frames,
        called(functions, frames, function_index).0.last().function_index == function_index,
        functions[function_index as int] is HostFunction ==> returned(
            functions,
            called(functions, frames, function_index).0,
        ) == frames,
{
    let after = called(functions, frames, function_index).0;
    assert(after.drop_last() =~= frames);
}

/// A call of a function of the module returns at the end of its body and at
/// `return`: the step takes the frame of the call from the call stack and
/// leaves the frames below it, the operand stack and the memory as they are.
pub proof fn lemma_call_returns(m: InstanceView)
    requires
        m.frames.len() > 0,
        frame_host(m.functions, m.frames.last()) is None,
        frame_code(m.functions, m.frames.last()) matches Some(code) && (m.frames.last().pc
            >= code.len() && m.frames.last().levels.len() == 0 || m.frames.last().pc < code.len()
            && code[m.frames.last().pc as int] == InstructionView::Simple(Instruction::Return)),
    ensures
        step(m) == (InstanceView { frames: m.frames.drop_last(), ..m }, Outcome::Running),
{
}

/// A step keeps the invariant of the instance.
pub proof fn lemma_step_keeps_wf(m: InstanceView)
    requires
        m.wf(),
    ensures
        step(m).0.wf(),
{
    lemma_step_keeps_memory_bounds(m);
    lemma_step_keeps_frames_valid(m);
}

/// A run keeps the invariant of the instance.
pub proof fn lemma_run_keeps_wf(m: InstanceView, fuel: nat)
    requires
        m.wf(),
    ensures
        run(m, fuel).0.wf(),
{
    lemma_run_keeps_memory_bounds(m, fuel);
    lemma_run_keeps_frames_valid(m, fuel);
}

/// A run keeps every frame in an instruction list of the table.
pub proof fn lemma_run_keeps_frames_valid(m: InstanceView, fuel: nat)
    requires
        frames_valid(m),
    ensures
        frames_valid(run(m, fuel).0),
    decreases fuel,
{
    if fuel > 0 {
        lemma_step_keeps_frames_valid(m);
        if step(m).1 is Running {
            lemma_run_keeps_frames_valid(step(m).0, (fuel - 1) as nat);
        }
    }
}

/// A run from `_start` begins with its one frame in the body of the start
/// function, whatever the call stack held before, and keeps every frame in an
/// instruction list of the table: the machine never meets a frame that it
/// cannot place.
pub proof fn lemma_start_keeps_frames_valid(m: InstanceView, fuel: nat)
    ensures
        begin(m) matches Ok(ready) ==> frames_valid(ready) && frames_valid(start(m, fuel).0),
{
    match begin(m) {
        Ok(ready) => {
            lemma_find_start(m.functions, 0);
            assert(frames_valid(ready));
            lemma_run_keeps_frames_valid(ready, fuel);
        },
        Err(_) => {},
    }
}

/// The function that `find_start` finds is a function of the module that is
/// exported as `_start`, and no function before it is.
pub proof fn lemma_find_start(functions: Seq<CallableView>, from: int)
    requires
        0 <= from,
    ensures
        match find_start(functions, from) {
            Some(index) => from <= index < functions.len() && is_start(
                functions[index],
            ) && forall|k: int| from <= k < index ==> !is_start(functions[k]),
            None => forall|k: int| from <= k < functions.len() ==> !is_start(
                functions[k],
            ),
        },
    decreases functions.len() - from,
{
    if from < functions.len() && !is_start(functions[from]) {
        lemma_find_start(functions, from + 1);
    }
}

} // verus!
