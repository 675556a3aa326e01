//! What the machine does, as mathematics: the state after one instruction,
//! as a function of the state before it.

use crate::compiler::object::InstanceView;
use crate::compiler::opcode::Opcode;
use crate::compiler::rules::distance_of;
use crate::compiler::value::ValueView;
use crate::vm::callframe::FrameView;
use crate::vm::errors::RuntimeErrorView;
use vstd::prelude::*;

verus! {

/// The mathematical value of a machine: the value stack, the active calls
/// with the innermost last, the global variables, and the heap of instances.
pub ghost struct VMView {
    pub stack: Seq<ValueView>,
    pub frames: Seq<FrameView>,
    pub globals: Map<Seq<char>, ValueView>,
    pub heap: Seq<InstanceView>,
}

/// What the machine asks of the program that drives it.
pub ghost enum ActionView {
    /// Nothing: the next instruction can run.
    Continue,
    /// Nothing: no call is active, the run is over.
    Halt,
    /// To print the value.
    Print(ValueView),
    /// To compute on two numbers: the instruction, the left operand, the
    /// right operand. The answer goes to `resume`.
    Binary(Opcode, u64, u64),
    /// To negate a number. The answer goes to `resume`.
    Negate(u64),
    /// To turn a number into an array index. The answer goes to
    /// `resume_index`.
    Index(u64),
}

/// How an instruction ends: with the next state and a request, or with an
/// error and the state in which the machine is left. An instruction that
/// fails changes nothing: the state is the one in which it began.
pub ghost enum Outcome {
    Next(VMView, ActionView),
    Fault(VMView, RuntimeErrorView),
}

/// The value that fits `usize` and is nearest to `i`.
pub open spec fn clip(i: int) -> usize {
    if i > usize::MAX {
        usize::MAX
    } else if i < 0 {
        0
    } else {
        i as usize
    }
}

/// The state and no request.
pub open spec fn proceed(vm: VMView) -> Outcome {
    Outcome::Next(vm, ActionView::Continue)
}

impl VMView {
    /// The innermost call.
    pub open spec fn frame(self) -> FrameView {
        self.frames.last()
    }

    /// The bytecode of the innermost call.
    pub open spec fn code(self) -> Seq<u8> {
        self.frame().function.chunk.code
    }

    /// The constants of the innermost call.
    pub open spec fn constants(self) -> Seq<ValueView> {
        self.frame().function.chunk.constants
    }

    /// The offset of the next instruction.
    pub open spec fn ip(self) -> int {
        self.frame().ip
    }

    /// Where the window of the innermost call starts.
    pub open spec fn base(self) -> int {
        self.frame().stack_start
    }

    /// How many values the window of the innermost call holds.
    pub open spec fn height(self) -> int {
        self.stack.len() - self.base()
    }

    /// The opcode at the instruction pointer, where there is a whole
    /// instruction.
    pub open spec fn fetch(self) -> Option<Opcode> {
        if self.frames.len() > 0 && 0 <= self.ip() < self.code().len() {
            match Opcode::decode(self.code()[self.ip()]) {
                Some(op) => if self.ip() + 1 + op.operand_width() <= self.code().len() {
                    Some(op)
                } else {
                    None
                },
                None => None,
            }
        } else {
            None
        }
    }

    /// The one-byte operand of the next instruction.
    pub open spec fn operand(self) -> u8 {
        self.code()[self.ip() + 1]
    }

    /// The distance that the two-byte operand of the next instruction
    /// encodes.
    pub open spec fn distance(self) -> int {
        distance_of(self.code()[self.ip() + 1], self.code()[self.ip() + 2])
    }

    /// The `k`-th value from the top of the stack.
    pub open spec fn top(self, k: int) -> ValueView {
        self.stack[self.stack.len() - 1 - k]
    }

    /// With the instruction pointer of the innermost call at `target`.
    pub open spec fn jump_to(self, target: int) -> VMView {
        VMView {
            frames: self.frames.update(
                self.frames.len() - 1,
                FrameView { ip: target, ..self.frame() },
            ),
            ..self
        }
    }

    /// With the instruction pointer moved past the next instruction, which
    /// is `op`.
    pub open spec fn past(self, op: Opcode) -> VMView {
        self.jump_to(self.ip() + 1 + op.operand_width())
    }

    /// With `v` pushed.
    pub open spec fn push(self, v: ValueView) -> VMView {
        VMView { stack: self.stack.push(v), ..self }
    }

    /// Without the top `n` values.
    pub open spec fn drop(self, n: int) -> VMView {
        VMView { stack: self.stack.take(self.stack.len() - n), ..self }
    }

    /// The offset that an error names: that of the next instruction, and 0
    /// where no call is active.
    pub open spec fn at(self) -> usize {
        if self.frames.len() > 0 {
            clip(self.ip())
        } else {
            0
        }
    }

    /// The error for an instruction that is none.
    pub open spec fn invalid(self) -> Outcome {
        Outcome::Fault(self, RuntimeErrorView::InvalidBytecode(self.at()))
    }

    /// The constant that the operand indexes, where it is a string.
    pub open spec fn name_operand(self) -> Result<Seq<char>, RuntimeErrorView> {
        if self.operand() >= self.constants().len() {
            Err(RuntimeErrorView::InvalidBytecode(self.at()))
        } else {
            match self.constants()[self.operand() as int] {
                ValueView::String(s) => Ok(s),
                _ => Err(RuntimeErrorView::ArgumentTypes),
            }
        }
    }

    /// What the invariant of the frames says: every window starts inside
    /// the stack, and a call's window starts no lower than its caller's.
    pub open spec fn wf(self) -> bool {
        &&& forall|i: int|
            0 <= i < self.frames.len() ==> 0 <= (#[trigger] self.frames[i]).stack_start
                <= self.stack.len()
        &&& forall|i: int, j: int|
            0 <= i <= j < self.frames.len() ==> (#[trigger] self.frames[i]).stack_start <= (
            #[trigger] self.frames[j]).stack_start
    }
}

/// `Constant`: pushes the constant that the operand indexes.
pub open spec fn op_constant(vm: VMView) -> Outcome {
    if vm.operand() >= vm.constants().len() {
        vm.invalid()
    } else {
        proceed(vm.push(vm.constants()[vm.operand() as int]).past(Opcode::Constant))
    }
}

/// `Nil`: pushes nil.
pub open spec fn op_nil(vm: VMView) -> Outcome {
    proceed(vm.push(ValueView::Nil).past(Opcode::Nil))
}

/// The arithmetic and comparison instructions: both operands must be
/// numbers. The machine does not compute: it asks, and changes nothing.
pub open spec fn op_binary(vm: VMView, op: Opcode) -> Outcome {
    if vm.height() < 2 {
        Outcome::Fault(vm, RuntimeErrorView::StackEmpty)
    } else {
        match (vm.top(1), vm.top(0)) {
            (ValueView::Number(a), ValueView::Number(b)) => Outcome::Next(
                vm,
                ActionView::Binary(op, a, b),
            ),
            _ => Outcome::Fault(vm, RuntimeErrorView::ArgumentTypes),
        }
    }
}

/// `Negate`: the operand must be a number. The machine asks, and changes
/// nothing.
pub open spec fn op_negate(vm: VMView) -> Outcome {
    if vm.height() < 1 {
        Outcome::Fault(vm, RuntimeErrorView::StackEmpty)
    } else {
        match vm.top(0) {
            ValueView::Number(a) => Outcome::Next(vm, ActionView::Negate(a)),
            _ => Outcome::Fault(vm, RuntimeErrorView::ArgumentTypes),
        }
    }
}

/// `Not`: replaces the top by the boolean that says whether it was false or
/// nil.
pub open spec fn op_not(vm: VMView) -> Outcome {
    if vm.height() < 1 {
        Outcome::Fault(vm, RuntimeErrorView::StackEmpty)
    } else {
        proceed(vm.drop(1).push(ValueView::of_bool(!vm.top(0).truthy())).past(Opcode::Not))
    }
}

/// `Pop`: drops the top.
pub open spec fn op_pop(vm: VMView) -> Outcome {
    if vm.height() < 1 {
        Outcome::Fault(vm, RuntimeErrorView::StackEmpty)
    } else {
        proceed(vm.drop(1).past(Opcode::Pop))
    }
}

/// `Print`: drops the top and asks to print it.
pub open spec fn op_print(vm: VMView) -> Outcome {
    if vm.height() < 1 {
        Outcome::Fault(vm, RuntimeErrorView::StackEmpty)
    } else {
        Outcome::Next(vm.drop(1).past(Opcode::Print), ActionView::Print(vm.top(0)))
    }
}

/// `DefineGlobal`: drops the top and makes it the global of the name that
/// the operand indexes, whether or not there was one.
pub open spec fn op_define_global(vm: VMView) -> Outcome {
    match vm.name_operand() {
        Err(e) => Outcome::Fault(vm, e),
        Ok(name) => if vm.height() < 1 {
            Outcome::Fault(vm, RuntimeErrorView::StackEmpty)
        } else {
            proceed(
                (VMView { globals: vm.globals.insert(name, vm.top(0)), ..vm }).drop(1).past(
                    Opcode::DefineGlobal,
                ),
            )
        },
    }
}

/// `GetGlobal`: pushes the global of that name; an error if there is none.
pub open spec fn op_get_global(vm: VMView) -> Outcome {
    match vm.name_operand() {
        Err(e) => Outcome::Fault(vm, e),
        Ok(name) => if vm.globals.contains_key(name) {
            proceed(vm.push(vm.globals[name]).past(Opcode::GetGlobal))
        } else {
            Outcome::Fault(vm, RuntimeErrorView::UndefinedGlobal(name))
        },
    }
}

/// `SetGlobal`: makes the top the value of the global of that name, and
/// leaves it on the stack; an error if there is no such global.
pub open spec fn op_set_global(vm: VMView) -> Outcome {
    match vm.name_operand() {
        Err(e) => Outcome::Fault(vm, e),
        Ok(name) => if !vm.globals.contains_key(name) {
            Outcome::Fault(vm, RuntimeErrorView::UndefinedGlobal(name))
        } else if vm.height() < 1 {
            Outcome::Fault(vm, RuntimeErrorView::StackEmpty)
        } else {
            proceed(
                (VMView { globals: vm.globals.insert(name, vm.top(0)), ..vm }).past(
                    Opcode::SetGlobal,
                ),
            )
        },
    }
}

/// `GetLocal`: pushes the value in the slot of the window that the operand
/// names.
pub open spec fn op_get_local(vm: VMView) -> Outcome {
    let index = vm.base() + vm.operand();
    if 0 <= index < vm.stack.len() {
        proceed(vm.push(vm.stack[index]).past(Opcode::GetLocal))
    } else {
        Outcome::Fault(vm, RuntimeErrorView::BadStackIndex(clip(index), vm.stack.len() as usize))
    }
}

/// `SetLocal`: copies the top into the slot of the window that the operand
/// names, and leaves it on the stack.
pub open spec fn op_set_local(vm: VMView) -> Outcome {
    let index = vm.base() + vm.operand();
    if vm.height() < 1 {
        Outcome::Fault(vm, RuntimeErrorView::StackEmpty)
    } else if 0 <= index < vm.stack.len() {
        proceed(
            (VMView { stack: vm.stack.update(index, vm.top(0)), ..vm }).past(Opcode::SetLocal),
        )
    } else {
        Outcome::Fault(vm, RuntimeErrorView::BadStackIndex(clip(index), vm.stack.len() as usize))
    }
}

/// Where a forward jump lands.
pub open spec fn jump_target(vm: VMView) -> int {
    vm.ip() + 3 + vm.distance()
}

/// Where a backward jump lands.
pub open spec fn loop_target(vm: VMView) -> int {
    vm.ip() + 3 - vm.distance()
}

/// `JumpIfFalse`: jumps forward if the top is false or nil, and goes on
/// with the next instruction if it is anything else. The top stays.
pub open spec fn op_jump_if_false(vm: VMView) -> Outcome {
    if vm.height() < 1 {
        Outcome::Fault(vm, RuntimeErrorView::StackEmpty)
    } else if vm.top(0).truthy() {
        proceed(vm.past(Opcode::JumpIfFalse))
    } else if jump_target(vm) > vm.code().len() {
        vm.invalid()
    } else {
        proceed(vm.jump_to(jump_target(vm)))
    }
}

/// `Jump`: jumps forward.
pub open spec fn op_jump(vm: VMView) -> Outcome {
    if jump_target(vm) > vm.code().len() {
        vm.invalid()
    } else {
        proceed(vm.jump_to(jump_target(vm)))
    }
}

/// `Loop`: jumps backward.
pub open spec fn op_loop(vm: VMView) -> Outcome {
    if loop_target(vm) < 0 {
        vm.invalid()
    } else {
        proceed(vm.jump_to(loop_target(vm)))
    }
}

/// `Closure`: pushes a closure of the function that the operand indexes.
pub open spec fn op_closure(vm: VMView) -> Outcome {
    if vm.operand() >= vm.constants().len() {
        vm.invalid()
    } else {
        match vm.constants()[vm.operand() as int] {
            ValueView::Function(f) => proceed(
                vm.push(ValueView::Closure(f)).past(Opcode::Closure),
            ),
            _ => Outcome::Fault(vm, RuntimeErrorView::ArgumentTypes),
        }
    }
}

/// `Class`: pushes the class of the name that the operand indexes.
pub open spec fn op_class(vm: VMView) -> Outcome {
    match vm.name_operand() {
        Err(e) => Outcome::Fault(vm, e),
        Ok(name) => proceed(vm.push(ValueView::Class(name)).past(Opcode::Class)),
    }
}

/// `Call`: the operand counts the arguments, and the callee lies below
/// them. A closure gets a frame whose window starts at the callee, if it
/// declares as many parameters as there are arguments. A class is replaced,
/// with the arguments, by a new instance of it.
pub open spec fn op_call(vm: VMView) -> Outcome {
    let argc = vm.operand() as int;
    let start = vm.stack.len() - (argc + 1);
    if vm.height() < argc + 1 {
        Outcome::Fault(vm, RuntimeErrorView::StackEmpty)
    } else {
        match vm.stack[start] {
            ValueView::Closure(f) => if f.arity != vm.operand() {
                Outcome::Fault(vm, RuntimeErrorView::ArityMismatch(f.arity, vm.operand()))
            } else {
                let returned = vm.past(Opcode::Call);
                proceed(
                    VMView {
                        frames: returned.frames.push(
                            FrameView { function: f, ip: 0, stack_start: start },
                        ),
                        ..returned
                    },
                )
            },
            ValueView::Class(name) => proceed(
                (VMView {
                    stack: vm.stack.take(start).push(
                        ValueView::Instance(vm.heap.len() as usize),
                    ),
                    heap: vm.heap.push(InstanceView { class: name, fields: Map::empty() }),
                    ..vm
                }).past(Opcode::Call),
            ),
            _ => Outcome::Fault(vm, RuntimeErrorView::ArgumentTypes),
        }
    }
}

/// `Return`: ends the innermost call. Its window gives way to the value
/// that was on top.
pub open spec fn op_return(vm: VMView) -> Outcome {
    if vm.height() < 1 {
        Outcome::Fault(vm, RuntimeErrorView::StackEmpty)
    } else {
        proceed(
            VMView {
                stack: vm.stack.take(vm.base()).push(vm.top(0)),
                frames: vm.frames.drop_last(),
                ..vm
            },
        )
    }
}

/// `NewArray`: replaces as many values as the operand counts by the array
/// of them, the deepest first.
pub open spec fn op_new_array(vm: VMView) -> Outcome {
    let n = vm.operand() as int;
    if vm.height() < n {
        Outcome::Fault(vm, RuntimeErrorView::StackEmpty)
    } else {
        proceed(
            vm.drop(n).push(ValueView::Array(vm.stack.skip(vm.stack.len() - n))).past(
                Opcode::NewArray,
            ),
        )
    }
}

/// How many values a subscript instruction takes: the array and the index,
/// and for a store the new element.
pub open spec fn subscript_operands(op: Opcode) -> int {
    if op == Opcode::StoreSubscript {
        3
    } else {
        2
    }
}

/// `IndexSubscript` and `StoreSubscript`: the array and the index lie below
/// the element to store, if any. The machine asks for the index as an
/// integer, and changes nothing.
pub open spec fn op_subscript(vm: VMView, op: Opcode) -> Outcome {
    let n = subscript_operands(op);
    if vm.height() < n {
        Outcome::Fault(vm, RuntimeErrorView::StackEmpty)
    } else {
        match (vm.top(n - 1), vm.top(n - 2)) {
            (ValueView::Array(_), ValueView::Number(i)) => Outcome::Next(vm, ActionView::Index(i)),
            _ => Outcome::Fault(vm, RuntimeErrorView::ArgumentTypes),
        }
    }
}

/// `GetProperty`: replaces the instance on top by the value of its field of
/// the name that the operand indexes.
pub open spec fn op_get_property(vm: VMView) -> Outcome {
    match vm.name_operand() {
        Err(e) => Outcome::Fault(vm, e),
        Ok(name) => if vm.height() < 1 {
            Outcome::Fault(vm, RuntimeErrorView::StackEmpty)
        } else {
            match vm.top(0) {
                ValueView::Instance(h) => if h >= vm.heap.len() {
                    Outcome::Fault(vm, RuntimeErrorView::BadStackIndex(h, vm.heap.len() as usize))
                } else if vm.heap[h as int].fields.contains_key(name) {
                    proceed(
                        vm.drop(1).push(vm.heap[h as int].fields[name]).past(Opcode::GetProperty),
                    )
                } else {
                    Outcome::Fault(vm, RuntimeErrorView::UndefinedProperty(name))
                },
                _ => Outcome::Fault(vm, RuntimeErrorView::ArgumentTypes),
            }
        },
    }
}

/// `SetProperty`: sets the field of the instance below the top to the top,
/// and replaces both by the value.
pub open spec fn op_set_property(vm: VMView) -> Outcome {
    match vm.name_operand() {
        Err(e) => Outcome::Fault(vm, e),
        Ok(name) => if vm.height() < 2 {
            Outcome::Fault(vm, RuntimeErrorView::StackEmpty)
        } else {
            match vm.top(1) {
                ValueView::Instance(h) => if h >= vm.heap.len() {
                    Outcome::Fault(vm, RuntimeErrorView::BadStackIndex(h, vm.heap.len() as usize))
                } else {
                    proceed(
                        (VMView {
                            heap: vm.heap.update(
                                h as int,
                                InstanceView {
                                    fields: vm.heap[h as int].fields.insert(name, vm.top(0)),
                                    ..vm.heap[h as int]
                                },
                            ),
                            ..vm
                        }).drop(2).push(vm.top(0)).past(Opcode::SetProperty),
                    )
                },
                _ => Outcome::Fault(vm, RuntimeErrorView::ArgumentTypes),
            }
        },
    }
}

/// What the instruction `op` does in the state `vm`, in which it is next.
pub open spec fn execute(vm: VMView, op: Opcode) -> Outcome {
    match op {
        Opcode::Return => op_return(vm),
        Opcode::Constant => op_constant(vm),
        Opcode::Add
        | Opcode::Subtract
        | Opcode::Multiply
        | Opcode::Divide
        | Opcode::Equal
        | Opcode::Greater
        | Opcode::Less => op_binary(vm, op),
        Opcode::Print => op_print(vm),
        Opcode::Not => op_not(vm),
        Opcode::Negate => op_negate(vm),
        Opcode::DefineGlobal => op_define_global(vm),
        Opcode::GetGlobal => op_get_global(vm),
        Opcode::SetGlobal => op_set_global(vm),
        Opcode::JumpIfFalse => op_jump_if_false(vm),
        Opcode::Jump => op_jump(vm),
        Opcode::Pop => op_pop(vm),
        Opcode::GetLocal => op_get_local(vm),
        Opcode::SetLocal => op_set_local(vm),
        Opcode::Nil => op_nil(vm),
        Opcode::Call => op_call(vm),
        Opcode::Closure => op_closure(vm),
        Opcode::Loop => op_loop(vm),
        Opcode::NewArray => op_new_array(vm),
        Opcode::IndexSubscript | Opcode::StoreSubscript => op_subscript(vm, op),
        Opcode::Class => op_class(vm),
        Opcode::GetProperty => op_get_property(vm),
        Opcode::SetProperty => op_set_property(vm),
    }
}

/// One step of the machine: nothing but `Halt` where no call is active, an
/// error where the instruction pointer is at no instruction, and else what
/// the instruction does.
pub open spec fn step(vm: VMView) -> Outcome {
    if vm.frames.len() == 0 {
        Outcome::Next(vm, ActionView::Halt)
    } else {
        match vm.fetch() {
            Some(op) => execute(vm, op),
            None => vm.invalid(),
        }
    }
}

/// Whether the next instruction is a conditional jump that can be
/// executed: there is a value to decide by, and the target lies in the code.
pub open spec fn at_branch(vm: VMView) -> bool {
    &&& vm.fetch() == Some(Opcode::JumpIfFalse)
    &&& vm.height() >= 1
    &&& jump_target(vm) <= vm.code().len()
}

/// Where a conditional jump leads: to its target where the value on top is
/// false or nil, and to the instruction behind the jump where it is not.
pub open spec fn branch(vm: VMView) -> int {
    if vm.top(0) is False || vm.top(0) is Nil {
        jump_target(vm)
    } else {
        vm.ip() + 3
    }
}

/// Whether the next instruction is arithmetic or a comparison, and its two
/// operands are there but are not both numbers.
pub open spec fn at_ill_typed_operation(vm: VMView) -> bool {
    &&& vm.fetch() matches Some(op) && (is_arithmetic(op) || is_comparison(op))
    &&& vm.height() >= 2
    &&& !(vm.top(0) is Number && vm.top(1) is Number)
}

/// Whether `op` is an arithmetic instruction, whose answer is a number.
pub open spec fn is_arithmetic(op: Opcode) -> bool {
    op == Opcode::Add || op == Opcode::Subtract || op == Opcode::Multiply || op == Opcode::Divide
}

/// Whether `op` is a comparison, whose answer is a boolean.
pub open spec fn is_comparison(op: Opcode) -> bool {
    op == Opcode::Equal || op == Opcode::Greater || op == Opcode::Less
}

/// The machine after the answer to a `Binary` or `Negate` request came in:
/// the operands give way to the answer. The answer has to fit the
/// instruction: a number for arithmetic and negation, a boolean for a
/// comparison. Where the next instruction asks no such thing, it is invalid
/// to answer.
pub open spec fn resume(vm: VMView, answer: ValueView) -> Outcome {
    match vm.fetch() {
        Some(op) => if is_arithmetic(op) || is_comparison(op) {
            match op_binary(vm, op) {
                Outcome::Fault(_, e) => Outcome::Fault(vm, e),
                Outcome::Next(_, _) => if (is_arithmetic(op) && answer is Number) || (
                is_comparison(op) && (answer is True || answer is False)) {
                    proceed(vm.drop(2).push(answer).past(op))
                } else {
                    Outcome::Fault(vm, RuntimeErrorView::ArgumentTypes)
                },
            }
        } else if op == Opcode::Negate {
            match op_negate(vm) {
                Outcome::Fault(_, e) => Outcome::Fault(vm, e),
                Outcome::Next(_, _) => if answer is Number {
                    proceed(vm.drop(1).push(answer).past(op))
                } else {
                    Outcome::Fault(vm, RuntimeErrorView::ArgumentTypes)
                },
            }
        } else {
            vm.invalid()
        },
        None => vm.invalid(),
    }
}

/// The machine after the answer to an `Index` request came in: a load
/// replaces array and index by the element; a store replaces array, index
/// and element by the array with the element in its place. Where the next
/// instruction asks no such thing, it is invalid to answer.
pub open spec fn resume_index(vm: VMView, index: usize) -> Outcome {
    match vm.fetch() {
        Some(op) => if op == Opcode::IndexSubscript || op == Opcode::StoreSubscript {
            match op_subscript(vm, op) {
                Outcome::Fault(_, e) => Outcome::Fault(vm, e),
                Outcome::Next(_, _) => {
                    let n = subscript_operands(op);
                    let array = vm.top(n - 1)->Array_0;
                    if index >= array.len() {
                        Outcome::Fault(vm, RuntimeErrorView::BadStackIndex(index, array.len() as usize))
                    } else if op == Opcode::StoreSubscript {
                        proceed(
                            vm.drop(3).push(
                                ValueView::Array(array.update(index as int, vm.top(0))),
                            ).past(op),
                        )
                    } else {
                        proceed(vm.drop(2).push(array[index as int]).past(op))
                    }
                },
            }
        } else {
            vm.invalid()
        },
        None => vm.invalid(),
    }
}

/// Up to `budget` steps: the machine runs until it asks for something, or
/// fails, or the budget is spent. Where it fails, it is left in the state
/// in which the failing instruction began.
pub open spec fn run(vm: VMView, budget: nat) -> Outcome
    decreases budget,
{
    if budget == 0 {
        proceed(vm)
    } else {
        match step(vm) {
            Outcome::Next(next, ActionView::Continue) => run(next, (budget - 1) as nat),
            other => other,
        }
    }
}

/// The machine after the function `f` was loaded into it: a closure of `f`
/// is pushed and called without arguments.
pub open spec fn load(vm: VMView, f: crate::compiler::value::FunctionView) -> VMView {
    VMView {
        stack: vm.stack.push(ValueView::Closure(f)),
        frames: vm.frames.push(FrameView { function: f, ip: 0, stack_start: vm.stack.len() as int }),
        ..vm
    }
}

} // verus!
