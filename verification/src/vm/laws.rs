//! What holds of every step of the machine.

use crate::compiler::opcode::Opcode;
use crate::compiler::typing::{
    constant_ok, decodes, effect, height_at, is_jump, lemma_decodes_split, lemma_reach_step,
    lemma_walk_decodes, lemma_walk_sound_at, need, next_of, opcode_at, operand_at, reach, sound,
    target_of, typed, well_typed, well_typed_pool,
};
use crate::compiler::value::{FunctionView, ValueView};
use crate::vm::errors::RuntimeErrorView;
use crate::vm::semantics::{
    ActionView, execute, is_arithmetic, is_comparison, jump_target, load, Outcome, resume,
    resume_index, run, step, VMView,
};
use vstd::prelude::*;

verus! {

/// Whether the values below offset `floor` of the stack are the same in
/// both states.
pub open spec fn same_below(before: VMView, after: VMView, floor: int) -> bool {
    &&& after.stack.len() >= floor
    &&& forall|i: int| 0 <= i < floor ==> #[trigger] after.stack[i] == before.stack[i]
}

/// Windows are independent. An instruction reads and writes only the window
/// of the call that executes it: whatever lies below that window (the locals
/// of every caller, and of every other call of the same function that is
/// still active) is the same after the instruction. And the windows stay
/// in order: a new call's window starts at its callee, inside the window of
/// its caller and above the caller's locals, and a call that returns gives
/// its window back.
pub proof fn lemma_step_keeps_windows(vm: VMView)
    requires
        vm.wf(),
        vm.frames.len() > 0,
    ensures
        step(vm) matches Outcome::Next(next, _) ==> next.wf() && same_below(vm, next, vm.base()),
{
    match vm.fetch() {
        Some(op) => {
            let base = vm.base();
            assert(vm.frames[vm.frames.len() - 1].stack_start == base);
            match execute(vm, op) {
                Outcome::Next(next, _) => {
                    assert(forall|i: int|
                        0 <= i < next.frames.len() && i < vm.frames.len() - 1
                            ==> next.frames[i].stack_start == vm.frames[i].stack_start);
                    assert(next.wf());
                    assert(same_below(vm, next, base));
                },
                Outcome::Fault(_, _) => {},
            }
        },
        None => {},
    }
}

/// Answers keep the windows too: `resume` touches nothing below the window
/// of the call whose instruction asked.
pub proof fn lemma_resume_keeps_windows(vm: VMView, answer: ValueView)
    requires
        vm.wf(),
        vm.frames.len() > 0,
    ensures
        resume(vm, answer) matches Outcome::Next(next, _) ==> next.wf() && same_below(
            vm,
            next,
            vm.base(),
        ),
{
    assert(vm.frames[vm.frames.len() - 1].stack_start == vm.base());
}

/// Answers keep the windows too: `resume_index` touches nothing below the
/// window of the call whose instruction asked.
pub proof fn lemma_resume_index_keeps_windows(vm: VMView, index: usize)
    requires
        vm.wf(),
        vm.frames.len() > 0,
    ensures
        resume_index(vm, index) matches Outcome::Next(next, _) ==> next.wf() && same_below(
            vm,
            next,
            vm.base(),
        ),
{
    assert(vm.frames[vm.frames.len() - 1].stack_start == vm.base());
}

/// A call gives the callee a window of its own: the frame that `Call`
/// pushes starts at the callee, holds the callee and the arguments and
/// nothing else, and every frame below is as it was but for the caller's
/// instruction pointer.
pub proof fn lemma_call_opens_window(vm: VMView)
    requires
        vm.wf(),
        vm.fetch() == Some(Opcode::Call),
        vm.height() >= vm.operand() + 1,
        vm.stack[vm.stack.len() - (vm.operand() + 1)] is Closure,
        (vm.stack[vm.stack.len() - (vm.operand() + 1)]->Closure_0).arity == vm.operand(),
    ensures
        step(vm) matches Outcome::Next(next, ActionView::Continue) && next.frames.len()
            == vm.frames.len() + 1 && next.base() == vm.stack.len() - (vm.operand() + 1)
            && next.base() >= vm.base() && next.height() == vm.operand() + 1 && next.stack
            == vm.stack && next.ip() == 0,
{
}

/// A conditional jump is taken if and only if the value on top is false or
/// nil: then the next instruction is the jump's target, and else it is the
/// instruction behind the jump. The value stays on the stack either way.
pub proof fn lemma_jump_if_false(vm: VMView)
    requires
        vm.fetch() == Some(Opcode::JumpIfFalse),
        vm.height() >= 1,
        jump_target(vm) <= vm.code().len(),
    ensures
        step(vm) matches Outcome::Next(next, ActionView::Continue) && next.stack == vm.stack
            && next.ip() == (if vm.top(0) is False || vm.top(0) is Nil {
            jump_target(vm)
        } else {
            vm.ip() + 3
        }),
{
}

/// Arithmetic is type-safe: an arithmetic or comparison instruction whose
/// operands are not both numbers ends in the type error, whatever else the
/// operands are; nothing is asked of the host, nothing is pushed, and the
/// machine is left as it was.
pub proof fn lemma_arithmetic_needs_numbers(vm: VMView, op: Opcode)
    requires
        vm.fetch() == Some(op),
        is_arithmetic(op) || is_comparison(op),
        vm.height() >= 2,
        !(vm.top(0) is Number) || !(vm.top(1) is Number),
    ensures
        step(vm) == Outcome::Fault(vm, RuntimeErrorView::ArgumentTypes),
        forall|answer: ValueView|
            resume(vm, answer) == Outcome::Fault(vm, RuntimeErrorView::ArgumentTypes),
{
}

/// A call with the wrong number of arguments fails before the callee runs:
/// the step ends in `ArityMismatch` and leaves the machine as it was, so no
/// frame is pushed and no instruction of the callee is executed.
pub proof fn lemma_call_checks_arity(vm: VMView)
    requires
        vm.fetch() == Some(Opcode::Call),
        vm.height() >= vm.operand() + 1,
        vm.stack[vm.stack.len() - (vm.operand() + 1)] is Closure,
        (vm.stack[vm.stack.len() - (vm.operand() + 1)]->Closure_0).arity != vm.operand(),
    ensures
        step(vm) == Outcome::Fault(
            vm,
            RuntimeErrorView::ArityMismatch(
                (vm.stack[vm.stack.len() - (vm.operand() + 1)]->Closure_0).arity,
                vm.operand(),
            ),
        ),
{
}

/// Assigning to a global that was never defined is an error, not a
/// definition: globals and stack are left as they were.
pub proof fn lemma_set_global_needs_definition(vm: VMView)
    requires
        vm.fetch() == Some(Opcode::SetGlobal),
        vm.name_operand() matches Ok(name) && !vm.globals.contains_key(name),
    ensures
        step(vm) == Outcome::Fault(vm, RuntimeErrorView::UndefinedGlobal(vm.name_operand()->Ok_0)),
{
}

/// Failure changes nothing. An instruction that fails, and an answer that
/// is refused, leave the machine in the state in which they found it: the
/// stack, the frames, the globals and the heap are as before.
pub proof fn lemma_failure_changes_nothing(vm: VMView, answer: ValueView, index: usize)
    ensures
        step(vm) matches Outcome::Fault(left, _) ==> left == vm,
        resume(vm, answer) matches Outcome::Fault(left, _) ==> left == vm,
        resume_index(vm, index) matches Outcome::Fault(left, _) ==> left == vm,
{
}

/// A run fails where an instruction fails: the state that a failed run
/// leaves is the one in which the failing instruction began, so that the
/// same instruction, tried again from there, fails in the same way.
pub proof fn lemma_run_stops_at_the_failure(vm: VMView, budget: nat)
    ensures
        run(vm, budget) matches Outcome::Fault(left, e) ==> step(left) == Outcome::Fault(left, e),
    decreases budget,
{
    if budget > 0 {
        match step(vm) {
            Outcome::Next(next, ActionView::Continue) => {
                lemma_run_stops_at_the_failure(next, (budget - 1) as nat);
            },
            _ => {},
        }
    }
}

/// Whether the machine completes the instruction in one step, inside the
/// call that executes it: all instructions do but those that ask the host,
/// those that jump, and call and return.
pub open spec fn steps_alone(op: Opcode) -> bool {
    !(is_arithmetic(op) || is_comparison(op) || op == Opcode::Negate || op
        == Opcode::IndexSubscript || op == Opcode::StoreSubscript || op == Opcode::Call || op
        == Opcode::Return || is_jump(op))
}

/// Whether the machine asks the host for the result of the instruction.
pub open spec fn asks(op: Opcode) -> bool {
    is_arithmetic(op) || is_comparison(op) || op == Opcode::Negate
}

/// The heights of the typing are the heights of the machine. Where an
/// instruction that the machine completes alone succeeds, the window is as
/// much higher as the typing says, and the next instruction is the one
/// behind it.
pub proof fn lemma_effect_of_step(vm: VMView, op: Opcode)
    requires
        vm.fetch() == Some(op),
        vm.base() >= 0,
        steps_alone(op),
        step(vm) is Next,
    ensures
        step(vm)->Next_0.frames.len() == vm.frames.len(),
        step(vm)->Next_0.base() == vm.base(),
        step(vm)->Next_0.height() == vm.height() + effect(op, vm.operand()),
        step(vm)->Next_0.ip() == vm.ip() + 1 + op.operand_width(),
{
}

/// The same holds where the host answers: the operands give way to the
/// answer as the typing says.
pub proof fn lemma_effect_of_answer(vm: VMView, op: Opcode, answer: ValueView)
    requires
        vm.fetch() == Some(op),
        vm.base() >= 0,
        asks(op),
        resume(vm, answer) is Next,
    ensures
        resume(vm, answer)->Next_0.frames.len() == vm.frames.len(),
        resume(vm, answer)->Next_0.base() == vm.base(),
        resume(vm, answer)->Next_0.height() == vm.height() + effect(op, vm.operand()),
        resume(vm, answer)->Next_0.ip() == vm.ip() + 1,
{
}

/// The same holds for subscripts, once the host has made the index.
pub proof fn lemma_effect_of_index(vm: VMView, op: Opcode, index: usize)
    requires
        vm.fetch() == Some(op),
        vm.base() >= 0,
        op == Opcode::IndexSubscript || op == Opcode::StoreSubscript,
        resume_index(vm, index) is Next,
    ensures
        resume_index(vm, index)->Next_0.frames.len() == vm.frames.len(),
        resume_index(vm, index)->Next_0.base() == vm.base(),
        resume_index(vm, index)->Next_0.height() == vm.height() + effect(op, vm.operand()),
        resume_index(vm, index)->Next_0.ip() == vm.ip() + 1,
{
}

/// A jump leaves the stack alone and lands where the typing says: at the
/// target, or, for a conditional jump whose condition holds, behind the
/// jump.
pub proof fn lemma_effect_of_jump(vm: VMView, op: Opcode)
    requires
        vm.fetch() == Some(op),
        is_jump(op),
        step(vm) is Next,
    ensures
        step(vm)->Next_0.stack == vm.stack,
        step(vm)->Next_0.frames.len() == vm.frames.len(),
        step(vm)->Next_0.base() == vm.base(),
        step(vm)->Next_0.ip() == target_of(vm.code(), vm.ip()) || (op == Opcode::JumpIfFalse
            && vm.top(0).truthy() && step(vm)->Next_0.ip() == vm.ip() + 3),
        op == Opcode::JumpIfFalse && !vm.top(0).truthy() ==> step(vm)->Next_0.ip() == target_of(
            vm.code(),
            vm.ip(),
        ),
{
}

/// What the typing asks for is enough. An instruction that finds as many
/// values in its window as the typing says it needs does not fail for want
/// of a value, nor for a slot that is not there.
pub proof fn lemma_need_suffices(vm: VMView, op: Opcode)
    requires
        vm.fetch() == Some(op),
        vm.base() >= 0,
        vm.height() >= need(op, vm.operand()),
    ensures
        !(step(vm) matches Outcome::Fault(_, RuntimeErrorView::StackEmpty)),
        (op == Opcode::GetLocal || op == Opcode::SetLocal) ==> !(step(vm) matches Outcome::Fault(
            _,
            RuntimeErrorView::BadStackIndex(_, _),
        )),
        forall|answer: ValueView|
            asks(op) ==> !(#[trigger] resume(vm, answer) matches Outcome::Fault(
                _,
                RuntimeErrorView::StackEmpty,
            )),
        forall|index: usize|
            (op == Opcode::IndexSubscript || op == Opcode::StoreSubscript) ==> !(
            #[trigger] resume_index(vm, index) matches Outcome::Fault(
                _,
                RuntimeErrorView::StackEmpty,
            )),
{
}

/// The constants that the typing asks for are enough. An instruction whose
/// operand names a constant that is there, and of the kind that the typing
/// says, does not fail for want of the constant or for its kind.
pub proof fn lemma_constants_suffice(vm: VMView, op: Opcode)
    requires
        vm.fetch() == Some(op),
        constant_ok(op, vm.operand(), vm.constants()),
    ensures
        op == Opcode::Constant || op == Opcode::Closure || op == Opcode::Class ==> step(vm) is Next,
        op == Opcode::DefineGlobal || op == Opcode::GetGlobal || op == Opcode::SetGlobal || op
            == Opcode::GetProperty || op == Opcode::SetProperty ==> vm.name_operand() is Ok,
{
}

/// A return gives the window back: the call's frame is gone, and of its
/// window nothing is left but the value that was on top. With the callee
/// and the arguments gone and the result there, the caller's window holds
/// as many values less as the call had arguments.
pub proof fn lemma_return_closes_window(vm: VMView)
    requires
        vm.fetch() == Some(Opcode::Return),
        vm.base() >= 0,
        vm.height() >= 1,
    ensures
        step(vm) matches Outcome::Next(next, ActionView::Continue) && next.frames
            == vm.frames.drop_last() && next.stack.len() == vm.base() + 1 && next.top(0) == vm.top(
            0,
        ) && same_below(vm, next, vm.base()),
{
}

/// Whether the call that executes is in tune with the typing of its code:
/// the code is well typed when it is entered with height `h0`, the
/// instruction pointer stands on an instruction boundary, and the window
/// holds as many values as the typing says it does there.
pub open spec fn in_tune(vm: VMView, h0: int) -> bool {
    &&& vm.frames.len() > 0
    &&& vm.base() >= 0
    &&& typed(vm.code(), vm.constants(), 0, vm.code().len() as int, h0)
    &&& 0 <= vm.ip() <= vm.code().len()
    &&& decodes(vm.code(), 0, vm.ip())
    &&& vm.height() == height_at(vm.code(), 0, h0, vm.ip())
}

/// In tune, the machine finds an instruction wherever the code is not at
/// its end, and the instruction is sound there: it finds its values and
/// its constant, and its jump lands.
pub proof fn lemma_in_tune_fetches(vm: VMView, h0: int)
    requires
        in_tune(vm, h0),
        vm.ip() < vm.code().len(),
    ensures
        vm.fetch() is Some,
        vm.fetch() == opcode_at(vm.code(), vm.ip()),
        next_of(vm.code(), vm.ip()) <= vm.code().len(),
        sound(vm.code(), vm.constants(), 0, vm.code().len() as int, h0, vm.ip(), vm.height()),
        vm.fetch()->0.operand_width() >= 1 ==> operand_at(vm.code(), vm.ip()) == vm.operand(),
{
    let code = vm.code();
    let len = code.len() as int;
    lemma_walk_sound_at(code, vm.constants(), 0, len, h0, 0, h0, len, vm.ip());
    lemma_walk_decodes(code, vm.constants(), 0, len, h0, 0, h0, len);
    lemma_decodes_split(code, 0, vm.ip(), len);
}

/// Compiled code keeps the machine in tune. Where the machine is in tune
/// and executes an instruction inside the call, it does not fail for want
/// of a value, of a slot or of a constant, and it is in tune afterwards:
/// on an instruction boundary again, with the height that the typing gives
/// for it. So the height at every boundary that execution reaches is the
/// one that the typing says, along whichever path it came: behind the code
/// of an expression one more than before it, behind the code of a
/// statement the same.
pub proof fn lemma_step_stays_in_tune(vm: VMView, h0: int)
    requires
        in_tune(vm, h0),
        vm.ip() < vm.code().len(),
    ensures
        !(step(vm) matches Outcome::Fault(_, RuntimeErrorView::StackEmpty)),
        !(step(vm) matches Outcome::Fault(_, RuntimeErrorView::InvalidBytecode(_))),
        vm.fetch() == Some(Opcode::GetLocal) || vm.fetch() == Some(Opcode::SetLocal) ==> step(vm)
            is Next,
        step(vm) is Next && step(vm)->Next_0.frames.len() == vm.frames.len() ==> in_tune(
            step(vm)->Next_0,
            h0,
        ),
{
    lemma_in_tune_fetches(vm, h0);
    let op = vm.fetch()->0;
    let code = vm.code();
    assert(reach(code, 0, h0, vm.ip(), vm.height()));
    lemma_reach_step(code, 0, h0, vm.ip(), vm.height());
    match step(vm) {
        Outcome::Next(next, _) => {
            if next.frames.len() == vm.frames.len() {
                assert(next.code() == code);
                assert(next.constants() == vm.constants());
                if steps_alone(op) {
                    lemma_effect_of_step(vm, op);
                } else if is_jump(op) {
                    lemma_effect_of_jump(vm, op);
                } else if op == Opcode::Call {
                    assert(next.height() == vm.height() - vm.operand());
                }
            }
        },
        Outcome::Fault(_, _) => {},
    }
}

/// An answer keeps the machine in tune.
pub proof fn lemma_resume_stays_in_tune(vm: VMView, h0: int, answer: ValueView)
    requires
        in_tune(vm, h0),
        vm.ip() < vm.code().len(),
    ensures
        !(resume(vm, answer) matches Outcome::Fault(_, RuntimeErrorView::StackEmpty)),
        resume(vm, answer) matches Outcome::Next(next, _) ==> in_tune(next, h0),
{
    lemma_in_tune_fetches(vm, h0);
    let op = vm.fetch()->0;
    let code = vm.code();
    assert(reach(code, 0, h0, vm.ip(), vm.height()));
    lemma_reach_step(code, 0, h0, vm.ip(), vm.height());
    match resume(vm, answer) {
        Outcome::Next(next, _) => {
            assert(next.code() == code);
            assert(next.constants() == vm.constants());
            lemma_effect_of_answer(vm, op, answer);
        },
        Outcome::Fault(_, _) => {},
    }
}

/// An index keeps the machine in tune.
pub proof fn lemma_resume_index_stays_in_tune(vm: VMView, h0: int, index: usize)
    requires
        in_tune(vm, h0),
        vm.ip() < vm.code().len(),
    ensures
        !(resume_index(vm, index) matches Outcome::Fault(_, RuntimeErrorView::StackEmpty)),
        resume_index(vm, index) matches Outcome::Next(next, _) ==> in_tune(next, h0),
{
    lemma_in_tune_fetches(vm, h0);
    let op = vm.fetch()->0;
    let code = vm.code();
    assert(reach(code, 0, h0, vm.ip(), vm.height()));
    lemma_reach_step(code, 0, h0, vm.ip(), vm.height());
    match resume_index(vm, index) {
        Outcome::Next(next, _) => {
            assert(next.code() == code);
            assert(next.constants() == vm.constants());
            lemma_effect_of_index(vm, op, index);
        },
        Outcome::Fault(_, _) => {},
    }
}

/// A loaded program starts in tune: the script has nothing but itself in
/// its window, which is what its code is typed for.
pub proof fn lemma_load_is_in_tune(vm: VMView, f: FunctionView)
    requires
        well_typed(f),
        f.arity == 0,
    ensures
        in_tune(load(vm, f), 1),
        well_typed_pool(load(vm, f).constants()),
{
    assert(decodes(f.chunk.code, 0, 0));
}

/// A call starts in tune: where a closure of a well-typed function is
/// called with as many arguments as it has parameters, the callee finds
/// itself and its arguments in its window, which is what its code is typed
/// for.
pub proof fn lemma_call_enters_in_tune(vm: VMView)
    requires
        vm.fetch() == Some(Opcode::Call),
        vm.base() >= 0,
        vm.height() >= vm.operand() + 1,
        vm.stack[vm.stack.len() - (vm.operand() + 1)] matches ValueView::Closure(f) && f.arity
            == vm.operand() && well_typed(f),
    ensures
        step(vm) is Next,
        step(vm)->Next_0.frames.len() == vm.frames.len() + 1,
        in_tune(
            step(vm)->Next_0,
            1 + (vm.stack[vm.stack.len() - (vm.operand() + 1)]->Closure_0).arity,
        ),
        well_typed_pool(step(vm)->Next_0.constants()),
{
    let f = vm.stack[vm.stack.len() - (vm.operand() + 1)]->Closure_0;
    assert(decodes(f.chunk.code, 0, 0));
}

/// Closures of well-typed functions are made of well-typed constants: the
/// closure that `Closure` pushes is one of a well-typed function, if the
/// functions among the constants are.
pub proof fn lemma_closure_is_well_typed(vm: VMView)
    requires
        vm.fetch() == Some(Opcode::Closure),
        well_typed_pool(vm.constants()),
        step(vm) is Next,
    ensures
        step(vm)->Next_0.top(0) matches ValueView::Closure(f) && well_typed(f),
{
}

} // verus!
