use crate::compiler::object::{Class, GreenClosure, GreenFunction, Instance, InstanceView};
use crate::compiler::opcode::Opcode;
use crate::compiler::value::{lemma_values_view, share, Value, values_view, ValueView};
use crate::vm::callframe::{CallFrame, FrameView};
use crate::vm::errors::{RuntimeError, RuntimeErrorView};
use crate::vm::laws::{
    lemma_resume_index_keeps_windows, lemma_resume_keeps_windows, lemma_step_keeps_windows,
};
use crate::vm::semantics::{
    at_branch, at_ill_typed_operation, branch, load, op_binary, op_call, op_class, op_closure,
    op_constant, op_define_global, op_get_global, op_get_local, op_get_property, op_jump,
    op_jump_if_false, op_loop, op_negate, op_new_array, op_nil, op_not, op_pop, op_print,
    op_return, op_set_global, op_set_local, op_set_property, op_subscript, resume, resume_index,
    run, step, ActionView, Outcome, VMView,
};
use crate::vm::VM;
use std::rc::Rc;
use vstd::prelude::*;

verus! {

pub type RunResult<T> = Result<T, RuntimeError>;

/// What the machine asks of the program that drives it.
#[derive(Debug)]
pub enum Action {
    /// Nothing: the next instruction can run.
    Continue,
    /// Nothing: no call is active, the run is over.
    Halt,
    /// To print the value.
    Print(Value),
    /// To compute on two numbers: the instruction, the left operand, the
    /// right operand. The answer goes to `VM::resume`.
    Binary(Opcode, u64, u64),
    /// To negate a number. The answer goes to `VM::resume`.
    Negate(u64),
    /// To turn a number into an array index. The answer goes to
    /// `VM::resume_index`.
    Index(u64),
}

impl View for Action {
    type V = ActionView;

    open spec fn view(&self) -> ActionView {
        match self {
            Action::Continue => ActionView::Continue,
            Action::Halt => ActionView::Halt,
            Action::Print(v) => ActionView::Print(v@),
            Action::Binary(op, a, b) => ActionView::Binary(*op, *a, *b),
            Action::Negate(a) => ActionView::Negate(*a),
            Action::Index(i) => ActionView::Index(*i),
        }
    }
}

/// Whether an instruction ended as the semantics say: in the state and with
/// the request that they give, or with the error and in the state that they
/// give.
pub open spec fn lands(outcome: Outcome, r: Result<Action, RuntimeError>, after: VMView) -> bool {
    match r {
        Ok(a) => outcome == Outcome::Next(after, a@),
        Err(e) => outcome == Outcome::Fault(after, e@),
    }
}

/// What views make of the operations on sequences of values.
pub proof fn lemma_values_view_ops(vs: Seq<Value>)
    ensures
        forall|n: int| 0 <= n <= vs.len() ==> #[trigger] values_view(vs.take(n)) == values_view(vs).take(n),
        forall|n: int| 0 <= n <= vs.len() ==> #[trigger] values_view(vs.skip(n)) == values_view(vs).skip(n),
        forall|i: int, v: Value|
            0 <= i < vs.len() ==> #[trigger] values_view(vs.update(i, v)) == values_view(vs).update(i, v@),
        vs.len() > 0 ==> values_view(vs.drop_last()) == values_view(vs).drop_last(),
{
    assert forall|n: int| 0 <= n <= vs.len() implies #[trigger] values_view(vs.take(n))
        == values_view(vs).take(n) by {
    }
    assert forall|n: int| 0 <= n <= vs.len() implies #[trigger] values_view(vs.skip(n))
        == values_view(vs).skip(n) by {
    }
    assert forall|i: int, v: Value| 0 <= i < vs.len() implies #[trigger] values_view(
        vs.update(i, v),
    ) == values_view(vs).update(i, v@) by {
    }
    if vs.len() > 0 {
    }
}

impl VM {
    /// The opcode at the instruction pointer, where there is a whole
    /// instruction.
    pub fn fetch(&self) -> (op: Option<Opcode>)
        ensures
            op == self@.fetch(),
    {
        if self.frames.len() == 0 {
            return None;
        }
        let frame = &self.frames[self.frames.len() - 1];
        let code = &frame.closure.function.chunk.code;
        if frame.ip >= code.len() {
            return None;
        }
        match Opcode::from_byte(code[frame.ip]) {
            Some(op) => {
                if op.width() <= code.len() - frame.ip - 1 {
                    Some(op)
                } else {
                    None
                }
            },
            None => None,
        }
    }

    /// The offset that an error names.
    fn at(&self) -> (at: usize)
        ensures
            at == self@.at(),
    {
        if self.frames.len() > 0 {
            self.frames[self.frames.len() - 1].ip
        } else {
            0
        }
    }

    /// The one-byte operand of the next instruction.
    fn operand(&self) -> (b: u8)
        requires
            self@.fetch() matches Some(op) && op.operand_width() >= 1,
        ensures
            b == self@.operand(),
    {
        let frame = &self.frames[self.frames.len() - 1];
        let code = &frame.closure.function.chunk.code;
        assert(frame.ip + 1 < code.len());
        code[frame.ip + 1]
    }

    /// The two-byte operand of the next instruction.
    fn distance(&self) -> (d: usize)
        requires
            self@.fetch() matches Some(op) && op.operand_width() == 2,
        ensures
            d == self@.distance(),
            d <= 0xffff,
    {
        let frame = &self.frames[self.frames.len() - 1];
        let code = &frame.closure.function.chunk.code;
        assert(frame.ip + 2 < code.len());
        let high = code[frame.ip + 1] as usize;
        let low = code[frame.ip + 2] as usize;
        high * 256 + low
    }

    /// Whether the window of the innermost call holds `n` values or more.
    fn holds(&self, n: usize) -> (b: bool)
        requires
            self@.frames.len() > 0,
        ensures
            b == (self@.height() >= n),
    {
        let base = self.frames[self.frames.len() - 1].stack_start;
        self.stack.len() >= base && self.stack.len() - base >= n
    }

    /// Moves the instruction pointer of the innermost call.
    fn jump_to(&mut self, target: usize)
        requires
            old(self)@.frames.len() > 0,
        ensures
            final(self)@ == old(self)@.jump_to(target as int),
    {
        let top = self.frames.len() - 1;
        self.frames[top].ip = target;
        proof {
            assert(self@.frames =~= old(self)@.jump_to(target as int).frames);
        }
    }

    /// Moves the instruction pointer past the next instruction.
    fn advance(&mut self, op: Opcode)
        requires
            old(self)@.fetch() == Some(op),
        ensures
            final(self)@ == old(self)@.past(op),
    {
        let top = self.frames.len() - 1;
        assert(self.frames[top as int].ip + 1 + op.operand_width()
            <= self.frames[top as int].closure.function.chunk.code.len());
        let target = self.frames[top].ip + 1 + op.width();
        self.jump_to(target);
    }

    /// Pushes a value.
    pub fn push(&mut self, value: Value)
        ensures
            final(self)@ == old(self)@.push(value@),
    {
        proof {
            lemma_values_view(self.stack@);
        }
        self.stack.push(value);
    }

    /// The value on top of the stack.
    pub fn peek(&self) -> (r: RunResult<&Value>)
        ensures
            match r {
                Ok(v) => self@.stack.len() > 0 && v@ == self@.top(0),
                Err(e) => self@.stack.len() == 0 && e@ == RuntimeErrorView::StackEmpty,
            },
    {
        proof {
            lemma_values_view(self.stack@);
        }
        if self.stack.len() == 0 {
            Err(RuntimeError::StackEmpty)
        } else {
            Ok(&self.stack[self.stack.len() - 1])
        }
    }

    /// The `k`-th value from the top of the stack.
    fn peek_at(&self, k: usize) -> (v: &Value)
        requires
            k < self@.stack.len(),
        ensures
            v@ == self@.top(k as int),
    {
        proof {
            lemma_values_view(self.stack@);
        }
        &self.stack[self.stack.len() - 1 - k]
    }

    /// Takes the top of the stack.
    pub fn pop(&mut self) -> (r: RunResult<Value>)
        ensures
            match r {
                Ok(v) => old(self)@.stack.len() > 0 && v@ == old(self)@.top(0) && final(self)@
                    == old(self)@.drop(1),
                Err(e) => old(self)@.stack.len() == 0 && e@ == RuntimeErrorView::StackEmpty
                    && final(self)@ == old(self)@,
            },
    {
        proof {
            lemma_values_view(self.stack@);
            lemma_values_view_ops(self.stack@);
        }
        match self.stack.pop() {
            Some(v) => {
                Ok(v)
            },
            None => Err(RuntimeError::StackEmpty),
        }
    }

    /// Drops the top `n` values.
    fn discard(&mut self, n: usize)
        requires
            n <= old(self)@.stack.len(),
        ensures
            final(self)@ == old(self)@.drop(n as int),
    {
        proof {
            lemma_values_view_ops(self.stack@);
        }
        let len = self.stack.len() - n;
        self.stack.truncate(len);
    }

    /// The constant that the operand indexes, where it is a string.
    fn name_operand(&self) -> (r: Result<String, RuntimeError>)
        requires
            self@.fetch() matches Some(op) && op.operand_width() >= 1,
        ensures
            match r {
                Ok(s) => self@.name_operand() == Ok::<_, RuntimeErrorView>(s@),
                Err(e) => self@.name_operand() == Err::<Seq<char>, _>(e@),
            },
    {
        let index = self.operand() as usize;
        let frame = &self.frames[self.frames.len() - 1];
        let constants = &frame.closure.function.chunk.constants;
        proof {
            lemma_values_view(constants@);
        }
        if index >= constants.len() {
            return Err(RuntimeError::InvalidBytecode(self.at()));
        }
        match &constants[index] {
            Value::String(s) => Ok(s.clone()),
            _ => Err(RuntimeError::ArgumentTypes),
        }
    }

    /// A copy of the constant that the operand indexes.
    fn constant_operand(&self) -> (r: Option<Value>)
        requires
            self@.fetch() matches Some(op) && op.operand_width() >= 1,
        ensures
            match r {
                Some(v) => self@.operand() < self@.constants().len() && v@
                    == self@.constants()[self@.operand() as int],
                None => self@.operand() >= self@.constants().len(),
            },
    {
        let index = self.operand() as usize;
        let frame = &self.frames[self.frames.len() - 1];
        let constants = &frame.closure.function.chunk.constants;
        proof {
            lemma_values_view(constants@);
        }
        if index >= constants.len() {
            None
        } else {
            Some(constants[index].duplicate())
        }
    }

    /// Makes `function` the call to run: a closure of it is pushed and
    /// called without arguments.
    pub fn load(&mut self, function: GreenFunction)
        ensures
            final(self)@ == load(old(self)@, function@),
            old(self)@.wf() ==> final(self)@.wf(),
    {
        let closure = Rc::new(GreenClosure::new(Rc::new(function)));
        let start = self.stack.len();
        self.push(Value::Closure(share(&closure)));
        let ghost mid = self@;
        self.frames.push(CallFrame::new(closure, start));
        proof {
            assert(self@.frames =~= mid.frames.push(
                FrameView { function: function@, ip: 0, stack_start: start as int },
            ));
        }
    }

    /// Runs up to `budget` instructions: until the machine asks for
    /// something, fails, or has spent the budget. After a failure the
    /// machine is in the state in which the failing instruction began.
    pub fn run(&mut self, budget: usize) -> (r: Result<Action, RuntimeError>)
        ensures
            lands(run(old(self)@, budget as nat), r, final(self)@),
            r is Ok && old(self)@.wf() ==> final(self)@.wf(),
    {
        let mut left = budget;
        while left > 0
            invariant
                run(old(self)@, budget as nat) == run(self@, left as nat),
                old(self)@.wf() ==> self@.wf(),
            decreases left,
        {
            match self.step() {
                Ok(Action::Continue) => {},
                Ok(action) => {
                    return Ok(action);
                },
                Err(e) => {
                    return Err(e);
                },
            }
            left -= 1;
        }
        Ok(Action::Continue)
    }

    /// Executes the next instruction, as `step` defines it. An instruction
    /// that fails leaves the machine as it was.
    ///
    /// Two instances are spelled out. A conditional jump goes to its target
    /// if and only if the value on top is false or nil, and leaves that
    /// value where it is. Arithmetic or a comparison on operands that are
    /// not both numbers is a type error: no value is coerced.
    pub fn step(&mut self) -> (r: Result<Action, RuntimeError>)
        ensures
            lands(step(old(self)@), r, final(self)@),
            r is Ok && old(self)@.wf() ==> final(self)@.wf(),
            r is Err ==> final(self)@ == old(self)@,
            at_branch(old(self)@) ==> (r matches Ok(a) && a@ == ActionView::Continue)
                && final(self)@.stack == old(self)@.stack && final(self)@.ip() == branch(
                old(self)@,
            ),
            at_ill_typed_operation(old(self)@) ==> (r matches Err(e) && e@
                == RuntimeErrorView::ArgumentTypes),
    {
        if self.frames.len() == 0 {
            return Ok(Action::Halt);
        }
        proof {
            if self@.wf() {
                lemma_step_keeps_windows(self@);
            }
        }
        let op = match self.fetch() {
            Some(op) => op,
            None => {
                return Err(RuntimeError::InvalidBytecode(self.at()));
            },
        };
        match op {
            Opcode::Constant => self.constant(),
            Opcode::Add => self.binary(op),
            Opcode::Subtract => self.binary(op),
            Opcode::Multiply => self.binary(op),
            Opcode::Divide => self.binary(op),
            Opcode::Greater => self.binary(op),
            Opcode::Less => self.binary(op),
            Opcode::Equal => self.binary(op),
            Opcode::Not => self.not(),
            Opcode::Negate => self.negate(),
            Opcode::DefineGlobal => self.define_global(),
            Opcode::GetGlobal => self.get_global(),
            Opcode::SetGlobal => self.set_global(),
            Opcode::GetLocal => self.get_local(),
            Opcode::SetLocal => self.set_local(),
            Opcode::GetProperty => self.get_property(),
            Opcode::SetProperty => self.set_property(),
            Opcode::Class => self.class(),
            Opcode::Closure => self.closure(),
            Opcode::JumpIfFalse => self.jump_if_false(),
            Opcode::Jump => self.jump(),
            Opcode::Loop => self.loop_(),
            Opcode::Call => self.call_instruction(),
            Opcode::NewArray => self.new_array(),
            Opcode::IndexSubscript => self.subscript(op),
            Opcode::StoreSubscript => self.subscript(op),
            Opcode::Return => self.ret(),
            Opcode::Print => self.print(),
            Opcode::Pop => self.pop_instruction(),
            Opcode::Nil => self.nil(),
        }
    }

    fn constant(&mut self) -> (r: Result<Action, RuntimeError>)
        requires
            old(self)@.fetch() == Some(Opcode::Constant),
        ensures
            lands(op_constant(old(self)@), r, final(self)@),
    {
        match self.constant_operand() {
            Some(v) => {
                self.push(v);
                self.advance(Opcode::Constant);
                Ok(Action::Continue)
            },
            None => Err(RuntimeError::InvalidBytecode(self.at())),
        }
    }

    fn nil(&mut self) -> (r: Result<Action, RuntimeError>)
        requires
            old(self)@.fetch() == Some(Opcode::Nil),
        ensures
            lands(op_nil(old(self)@), r, final(self)@),
    {
        self.push(Value::Nil);
        self.advance(Opcode::Nil);
        Ok(Action::Continue)
    }

    fn binary(&mut self, op: Opcode) -> (r: Result<Action, RuntimeError>)
        requires
            old(self)@.fetch() == Some(op),
        ensures
            lands(op_binary(old(self)@, op), r, final(self)@),
            final(self)@ == old(self)@,
    {
        if !self.holds(2) {
            return Err(RuntimeError::StackEmpty);
        }
        match (self.peek_at(1), self.peek_at(0)) {
            (Value::Number(a), Value::Number(b)) => Ok(Action::Binary(op, *a, *b)),
            _ => Err(RuntimeError::ArgumentTypes),
        }
    }

    fn negate(&mut self) -> (r: Result<Action, RuntimeError>)
        requires
            old(self)@.fetch() == Some(Opcode::Negate),
        ensures
            lands(op_negate(old(self)@), r, final(self)@),
            final(self)@ == old(self)@,
    {
        if !self.holds(1) {
            return Err(RuntimeError::StackEmpty);
        }
        match self.peek_at(0) {
            Value::Number(a) => Ok(Action::Negate(*a)),
            _ => Err(RuntimeError::ArgumentTypes),
        }
    }

    fn not(&mut self) -> (r: Result<Action, RuntimeError>)
        requires
            old(self)@.fetch() == Some(Opcode::Not),
        ensures
            lands(op_not(old(self)@), r, final(self)@),
    {
        if !self.holds(1) {
            return Err(RuntimeError::StackEmpty);
        }
        let truthy = self.peek_at(0).is_truthy();
        self.discard(1);
        self.push(Value::from_bool(!truthy));
        self.advance(Opcode::Not);
        Ok(Action::Continue)
    }

    fn pop_instruction(&mut self) -> (r: Result<Action, RuntimeError>)
        requires
            old(self)@.fetch() == Some(Opcode::Pop),
        ensures
            lands(op_pop(old(self)@), r, final(self)@),
    {
        if !self.holds(1) {
            return Err(RuntimeError::StackEmpty);
        }
        self.discard(1);
        self.advance(Opcode::Pop);
        Ok(Action::Continue)
    }

    fn print(&mut self) -> (r: Result<Action, RuntimeError>)
        requires
            old(self)@.fetch() == Some(Opcode::Print),
        ensures
            lands(op_print(old(self)@), r, final(self)@),
    {
        if !self.holds(1) {
            return Err(RuntimeError::StackEmpty);
        }
        match self.pop() {
            Ok(v) => {
                self.advance(Opcode::Print);
                Ok(Action::Print(v))
            },
            Err(e) => Err(e),
        }
    }

    fn define_global(&mut self) -> (r: Result<Action, RuntimeError>)
        requires
            old(self)@.fetch() == Some(Opcode::DefineGlobal),
        ensures
            lands(op_define_global(old(self)@), r, final(self)@),
    {
        let name = match self.name_operand() {
            Ok(name) => name,
            Err(e) => {
                return Err(e);
            },
        };
        if !self.holds(1) {
            return Err(RuntimeError::StackEmpty);
        }
        match self.pop() {
            Ok(value) => {
                let ghost mid = self@;
                self.globals.insert(name, value);
                proof {
                    assert(self@.globals =~= mid.globals.insert(name@, value@));
                }
                self.advance(Opcode::DefineGlobal);
                proof {
                    assert(self@ == (VMView {
                        globals: old(self)@.globals.insert(name@, old(self)@.top(0)),
                        ..old(self)@
                    }).drop(1).past(Opcode::DefineGlobal));
                }
                Ok(Action::Continue)
            },
            Err(e) => Err(e),
        }
    }

    fn get_global(&mut self) -> (r: Result<Action, RuntimeError>)
        requires
            old(self)@.fetch() == Some(Opcode::GetGlobal),
        ensures
            lands(op_get_global(old(self)@), r, final(self)@),
    {
        let name = match self.name_operand() {
            Ok(name) => name,
            Err(e) => {
                return Err(e);
            },
        };
        let value = match self.globals.get(name.as_str()) {
            Some(v) => v.duplicate(),
            None => {
                return Err(RuntimeError::UndefinedGlobal(name));
            },
        };
        self.push(value);
        self.advance(Opcode::GetGlobal);
        Ok(Action::Continue)
    }

    fn set_global(&mut self) -> (r: Result<Action, RuntimeError>)
        requires
            old(self)@.fetch() == Some(Opcode::SetGlobal),
        ensures
            lands(op_set_global(old(self)@), r, final(self)@),
    {
        let name = match self.name_operand() {
            Ok(name) => name,
            Err(e) => {
                return Err(e);
            },
        };
        if !self.globals.contains_key(name.as_str()) {
            return Err(RuntimeError::UndefinedGlobal(name));
        }
        if !self.holds(1) {
            return Err(RuntimeError::StackEmpty);
        }
        let value = self.peek_at(0).duplicate();
        self.globals.insert(name, value);
        proof {
            assert(self@.globals =~= old(self)@.globals.insert(name@, value@));
        }
        self.advance(Opcode::SetGlobal);
        Ok(Action::Continue)
    }

    fn get_local(&mut self) -> (r: Result<Action, RuntimeError>)
        requires
            old(self)@.fetch() == Some(Opcode::GetLocal),
        ensures
            lands(op_get_local(old(self)@), r, final(self)@),
    {
        let start = self.frames[self.frames.len() - 1].stack_start;
        let slot = self.operand() as usize;
        proof {
            lemma_values_view(self.stack@);
        }
        if start < self.stack.len() && slot < self.stack.len() - start {
            let value = self.stack[start + slot].duplicate();
            self.push(value);
            self.advance(Opcode::GetLocal);
            Ok(Action::Continue)
        } else {
            Err(RuntimeError::BadStackIndex(start.saturating_add(slot), self.stack.len()))
        }
    }

    fn set_local(&mut self) -> (r: Result<Action, RuntimeError>)
        requires
            old(self)@.fetch() == Some(Opcode::SetLocal),
        ensures
            lands(op_set_local(old(self)@), r, final(self)@),
    {
        if !self.holds(1) {
            return Err(RuntimeError::StackEmpty);
        }
        let value = self.peek_at(0).duplicate();
        let start = self.frames[self.frames.len() - 1].stack_start;
        let slot = self.operand() as usize;
        proof {
            lemma_values_view_ops(self.stack@);
        }
        if start < self.stack.len() && slot < self.stack.len() - start {
            self.stack.set(start + slot, value);
            self.advance(Opcode::SetLocal);
            Ok(Action::Continue)
        } else {
            Err(RuntimeError::BadStackIndex(start.saturating_add(slot), self.stack.len()))
        }
    }

    fn jump_if_false(&mut self) -> (r: Result<Action, RuntimeError>)
        requires
            old(self)@.fetch() == Some(Opcode::JumpIfFalse),
        ensures
            lands(op_jump_if_false(old(self)@), r, final(self)@),
    {
        if !self.holds(1) {
            return Err(RuntimeError::StackEmpty);
        }
        if self.peek_at(0).is_truthy() {
            self.advance(Opcode::JumpIfFalse);
            Ok(Action::Continue)
        } else {
            self.jump()
        }
    }

    fn jump(&mut self) -> (r: Result<Action, RuntimeError>)
        requires
            old(self)@.fetch() matches Some(op) && op.operand_width() == 2,
        ensures
            lands(op_jump(old(self)@), r, final(self)@),
    {
        let offset = self.distance();
        let frame = &self.frames[self.frames.len() - 1];
        let ip = frame.ip;
        let len = frame.closure.function.chunk.code.len();
        if offset > len - ip - 3 {
            return Err(RuntimeError::InvalidBytecode(ip));
        }
        self.jump_to(ip + 3 + offset);
        Ok(Action::Continue)
    }

    fn loop_(&mut self) -> (r: Result<Action, RuntimeError>)
        requires
            old(self)@.fetch() == Some(Opcode::Loop),
        ensures
            lands(op_loop(old(self)@), r, final(self)@),
    {
        let offset = self.distance();
        let frame = &self.frames[self.frames.len() - 1];
        let ip = frame.ip;
        assert(ip + 3 <= frame.closure.function.chunk.code.len());
        if offset > ip + 3 {
            return Err(RuntimeError::InvalidBytecode(ip));
        }
        self.jump_to(ip + 3 - offset);
        Ok(Action::Continue)
    }

    fn closure(&mut self) -> (r: Result<Action, RuntimeError>)
        requires
            old(self)@.fetch() == Some(Opcode::Closure),
        ensures
            lands(op_closure(old(self)@), r, final(self)@),
    {
        match self.constant_operand() {
            Some(Value::Function(fun)) => {
                let closure = GreenClosure::new(fun);
                self.push(Value::Closure(Rc::new(closure)));
                self.advance(Opcode::Closure);
                Ok(Action::Continue)
            },
            Some(_) => Err(RuntimeError::ArgumentTypes),
            None => Err(RuntimeError::InvalidBytecode(self.at())),
        }
    }

    fn class(&mut self) -> (r: Result<Action, RuntimeError>)
        requires
            old(self)@.fetch() == Some(Opcode::Class),
        ensures
            lands(op_class(old(self)@), r, final(self)@),
    {
        let name = match self.name_operand() {
            Ok(name) => name,
            Err(e) => {
                return Err(e);
            },
        };
        self.push(Value::Class(Rc::new(Class::new(name))));
        self.advance(Opcode::Class);
        Ok(Action::Continue)
    }

    fn call_instruction(&mut self) -> (r: Result<Action, RuntimeError>)
        requires
            old(self)@.fetch() == Some(Opcode::Call),
        ensures
            lands(op_call(old(self)@), r, final(self)@),
    {
        let arity = self.operand();
        self.call_value(arity)
    }

    /// Calls the value that lies below `arity` arguments.
    pub(crate) fn call_value(&mut self, arity: u8) -> (r: Result<Action, RuntimeError>)
        requires
            old(self)@.fetch() == Some(Opcode::Call),
            arity == old(self)@.operand(),
        ensures
            lands(op_call(old(self)@), r, final(self)@),
    {
        if !self.holds(arity as usize + 1) {
            return Err(RuntimeError::StackEmpty);
        }
        let frame_start = self.stack.len() - (arity as usize + 1);
        proof {
            lemma_values_view(self.stack@);
            lemma_values_view_ops(self.stack@);
        }
        match &self.stack[frame_start] {
            Value::Closure(c) => {
                let closure = share(c);
                self.call(closure, arity)
            },
            Value::Class(c) => {
                let class = share(c);
                let handle = self.allocate(Instance::new(class));
                self.stack.truncate(frame_start);
                let ghost mid = self@;
                self.push(Value::Instance(handle));
                self.advance(Opcode::Call);
                proof {
                    assert(mid.stack == old(self)@.stack.take(frame_start as int));
                }
                Ok(Action::Continue)
            },
            _ => Err(RuntimeError::ArgumentTypes),
        }
    }

    /// Starts a call of `closure`, which lies below `arity` arguments.
    fn call(&mut self, closure: Rc<GreenClosure>, arity: u8) -> (r: Result<Action, RuntimeError>)
        requires
            old(self)@.fetch() == Some(Opcode::Call),
            arity == old(self)@.operand(),
            old(self)@.height() >= arity + 1,
            old(self)@.stack[old(self)@.stack.len() - (arity + 1)] == ValueView::Closure(closure@),
        ensures
            lands(op_call(old(self)@), r, final(self)@),
    {
        if arity != closure.function.arity {
            return Err(RuntimeError::ArityMismatch(closure.function.arity, arity));
        }
        let frame_start = self.stack.len() - (arity as usize + 1);
        self.advance(Opcode::Call);
        let ghost mid = self@;
        self.frames.push(CallFrame::new(closure, frame_start));
        proof {
            assert(self@.frames =~= mid.frames.push(
                FrameView { function: closure@, ip: 0, stack_start: frame_start as int },
            ));
        }
        Ok(Action::Continue)
    }

    /// Ends the innermost call. Where no call is active, that is an error
    /// and nothing changes.
    pub fn ret(&mut self) -> (r: Result<Action, RuntimeError>)
        ensures
            old(self)@.frames.len() > 0 ==> lands(op_return(old(self)@), r, final(self)@),
            old(self)@.frames.len() == 0 ==> (r matches Err(e) && e@
                == RuntimeErrorView::ReturnFromTopLevel) && final(self)@ == old(self)@,
    {
        if self.frames.len() == 0 {
            return Err(RuntimeError::ReturnFromTopLevel);
        }
        if !self.holds(1) {
            return Err(RuntimeError::StackEmpty);
        }
        proof {
            lemma_values_view(self.stack@);
            lemma_values_view_ops(self.stack@);
        }
        let start = self.frames[self.frames.len() - 1].stack_start;
        let result = match self.stack.pop() {
            Some(v) => v,
            None => {
                return Err(RuntimeError::StackEmpty);
            },
        };
        self.frames.pop();
        self.stack.truncate(start);
        proof {
            assert(self.stack@ == old(self).stack@.take(start as int));
            lemma_values_view(self.stack@);
        }
        self.stack.push(result);
        proof {
            assert(self@.frames =~= old(self)@.frames.drop_last());
        }
        Ok(Action::Continue)
    }

    fn new_array(&mut self) -> (r: Result<Action, RuntimeError>)
        requires
            old(self)@.fetch() == Some(Opcode::NewArray),
        ensures
            lands(op_new_array(old(self)@), r, final(self)@),
    {
        let item_count = self.operand() as usize;
        if !self.holds(item_count) {
            return Err(RuntimeError::StackEmpty);
        }
        proof {
            lemma_values_view_ops(self.stack@);
        }
        let at = self.stack.len() - item_count;
        let array = self.stack.split_off(at);
        proof {
            assert(values_view(array@) =~= old(self)@.stack.skip(at as int));
        }
        self.push(Value::Array(array));
        self.advance(Opcode::NewArray);
        Ok(Action::Continue)
    }

    fn subscript(&mut self, op: Opcode) -> (r: Result<Action, RuntimeError>)
        requires
            old(self)@.fetch() == Some(op),
            op == Opcode::IndexSubscript || op == Opcode::StoreSubscript,
        ensures
            lands(op_subscript(old(self)@, op), r, final(self)@),
            final(self)@ == old(self)@,
    {
        let n: usize = match op {
            Opcode::StoreSubscript => 3,
            _ => 2,
        };
        if !self.holds(n) {
            return Err(RuntimeError::StackEmpty);
        }
        match (self.peek_at(n - 1), self.peek_at(n - 2)) {
            (Value::Array(_), Value::Number(i)) => Ok(Action::Index(*i)),
            _ => Err(RuntimeError::ArgumentTypes),
        }
    }

    fn get_property(&mut self) -> (r: Result<Action, RuntimeError>)
        requires
            old(self)@.fetch() == Some(Opcode::GetProperty),
        ensures
            lands(op_get_property(old(self)@), r, final(self)@),
    {
        let name = match self.name_operand() {
            Ok(name) => name,
            Err(e) => {
                return Err(e);
            },
        };
        if !self.holds(1) {
            return Err(RuntimeError::StackEmpty);
        }
        let handle = match self.peek_at(0) {
            Value::Instance(h) => *h,
            _ => {
                return Err(RuntimeError::ArgumentTypes);
            },
        };
        if handle >= self.heap.len() {
            return Err(RuntimeError::BadStackIndex(handle, self.heap.len()));
        }
        let value = match self.heap[handle].get_property(name.as_str()) {
            Some(v) => v,
            None => {
                return Err(RuntimeError::UndefinedProperty(name));
            },
        };
        self.discard(1);
        self.push(value);
        self.advance(Opcode::GetProperty);
        Ok(Action::Continue)
    }

    fn set_property(&mut self) -> (r: Result<Action, RuntimeError>)
        requires
            old(self)@.fetch() == Some(Opcode::SetProperty),
        ensures
            lands(op_set_property(old(self)@), r, final(self)@),
    {
        let name = match self.name_operand() {
            Ok(name) => name,
            Err(e) => {
                return Err(e);
            },
        };
        if !self.holds(2) {
            return Err(RuntimeError::StackEmpty);
        }
        let handle = match self.peek_at(1) {
            Value::Instance(h) => *h,
            _ => {
                return Err(RuntimeError::ArgumentTypes);
            },
        };
        if handle >= self.heap.len() {
            return Err(RuntimeError::BadStackIndex(handle, self.heap.len()));
        }
        let value = self.peek_at(0).duplicate();
        let kept = self.peek_at(0).duplicate();
        self.heap[handle].set_property(name.as_str(), value);
        proof {
            assert(self@.heap =~= old(self)@.heap.update(
                handle as int,
                InstanceView {
                    fields: old(self)@.heap[handle as int].fields.insert(name@, old(self)@.top(0)),
                    ..old(self)@.heap[handle as int]
                },
            ));
        }
        self.discard(2);
        self.push(kept);
        self.advance(Opcode::SetProperty);
        Ok(Action::Continue)
    }

    /// Takes the answer to a `Binary` or `Negate` request: the operands give
    /// way to `answer`. Where the machine stands at no such instruction,
    /// that is an error and nothing changes.
    pub fn resume(&mut self, answer: Value) -> (r: Result<Action, RuntimeError>)
        ensures
            lands(resume(old(self)@, answer@), r, final(self)@),
            r is Ok && old(self)@.wf() ==> final(self)@.wf(),
            r is Err ==> final(self)@ == old(self)@,
    {
        proof {
            if self@.wf() && self@.frames.len() > 0 {
                lemma_resume_keeps_windows(self@, answer@);
            }
        }
        let op = match self.fetch() {
            Some(op) => op,
            None => {
                return Err(RuntimeError::InvalidBytecode(self.at()));
            },
        };
        let arithmetic = match op {
            Opcode::Add | Opcode::Subtract | Opcode::Multiply | Opcode::Divide => true,
            _ => false,
        };
        let comparison = match op {
            Opcode::Equal | Opcode::Greater | Opcode::Less => true,
            _ => false,
        };
        if arithmetic || comparison {
            match self.binary(op) {
                Err(e) => {
                    return Err(e);
                },
                Ok(_) => {},
            }
            let fits = match &answer {
                Value::Number(_) => arithmetic,
                Value::True | Value::False => comparison,
                _ => false,
            };
            if !fits {
                return Err(RuntimeError::ArgumentTypes);
            }
            self.discard(2);
            self.push(answer);
            self.advance(op);
            Ok(Action::Continue)
        } else if op == Opcode::Negate {
            match self.negate() {
                Err(e) => {
                    return Err(e);
                },
                Ok(_) => {},
            }
            if !answer.is_number() {
                return Err(RuntimeError::ArgumentTypes);
            }
            self.discard(1);
            self.push(answer);
            self.advance(op);
            Ok(Action::Continue)
        } else {
            Err(RuntimeError::InvalidBytecode(self.at()))
        }
    }

    /// Takes the answer to an `Index` request: does the load or the store
    /// at `index`. Where the index lies outside the array, or the machine
    /// stands at no such instruction, that is an error and nothing changes.
    pub fn resume_index(&mut self, index: usize) -> (r: Result<Action, RuntimeError>)
        ensures
            lands(resume_index(old(self)@, index), r, final(self)@),
            r is Ok && old(self)@.wf() ==> final(self)@.wf(),
            r is Err ==> final(self)@ == old(self)@,
    {
        proof {
            if self@.wf() && self@.frames.len() > 0 {
                lemma_resume_index_keeps_windows(self@, index);
            }
        }
        let op = match self.fetch() {
            Some(op) => op,
            None => {
                return Err(RuntimeError::InvalidBytecode(self.at()));
            },
        };
        if !(op == Opcode::IndexSubscript || op == Opcode::StoreSubscript) {
            return Err(RuntimeError::InvalidBytecode(self.at()));
        }
        match self.subscript(op) {
            Err(e) => {
                return Err(e);
            },
            Ok(_) => {},
        }
        if op == Opcode::StoreSubscript {
            let len = match self.peek_at(2) {
                Value::Array(a) => a.len(),
                _ => 0,
            };
            proof {
                lemma_values_view(self.stack@);
            }
            if index >= len {
                return Err(RuntimeError::BadStackIndex(index, len));
            }
            let item = match self.pop() {
                Ok(v) => v,
                Err(e) => {
                    return Err(e);
                },
            };
            self.discard(1);
            let array = match self.pop() {
                Ok(v) => v,
                Err(e) => {
                    return Err(e);
                },
            };
            let ghost mid = self@;
            let mut items = array.as_array();
            proof {
                lemma_values_view_ops(items@);
                assert(mid.stack =~= old(self)@.drop(3).stack);
            }
            let ghost before = items@;
            items.set(index, item);
            proof {
                lemma_values_view(before);
                assert(values_view(items@) == values_view(before).update(index as int, item@));
            }
            self.push(Value::Array(items));
            proof {
                assert(self@ == old(self)@.drop(3).push(
                    ValueView::Array(
                        (old(self)@.top(2)->Array_0).update(index as int, old(self)@.top(0)),
                    ),
                ));
            }
            self.advance(op);
            Ok(Action::Continue)
        } else {
            let element = match self.peek_at(1) {
                Value::Array(a) => {
                    proof {
                        lemma_values_view(a@);
                    }
                    if index >= a.len() {
                        return Err(RuntimeError::BadStackIndex(index, a.len()));
                    }
                    a[index].duplicate()
                },
                _ => {
                    return Err(RuntimeError::ArgumentTypes);
                },
            };
            self.discard(2);
            self.push(element);
            proof {
                assert(self@ == old(self)@.drop(2).push(
                    (old(self)@.top(1)->Array_0)[index as int],
                ));
            }
            self.advance(op);
            Ok(Action::Continue)
        }
    }
}

} // verus!
