//! What the compiler emits, as mathematics: for every node of the syntax
//! tree, the state of the function being compiled after the node, as a
//! function of the state before it.

use crate::compiler::chunk::MAX_CONSTANTS;
use crate::compiler::instance::{CompilerView, MAX_LOCALS, MAX_SCOPE_DEPTH};
use crate::compiler::local::LocalView;
use crate::compiler::module_resolver::ModuleTable;
use crate::compiler::object::GreenFunctionType;
use crate::compiler::opcode::Opcode;
use crate::compiler::value::{ChunkView, FunctionView, ValueView};
use crate::error::CompileError;
use crate::syntax::expr::{
    ArrayExpr, BinaryExpr, BinaryOperator, CallExpr, ClassExpr, Expr, ExprKind, FunctionExpr,
    GetExpr, IfElseExpr, IfExpr, LiteralExpr, PrintExpr, ReturnExpr, SetExpr, SubscriptExpr,
    UnaryExpr, UnaryOperator, VarAssignExpr, Variable, VarSetExpr, WhileExpr,
};
use vstd::prelude::*;

verus! {

/// The source line that the compiler gives every opcode: the syntax tree
/// carries no positions.
pub const UNKNOWN_LINE: usize = 0;

/// The most arguments of a call, parameters of a function and elements of
/// an array literal: each count is a one-byte operand.
pub const MAX_OPERAND: usize = 255;

/// The widest jump: a distance is a two-byte operand.
pub const MAX_JUMP: usize = 0xffff;

/// How deep imports may nest.
pub const MAX_IMPORT_DEPTH: usize = 16;

/// The high byte of a jump distance.
pub open spec fn high_byte(distance: int) -> u8 {
    (distance / 256) as u8
}

/// The low byte of a jump distance.
pub open spec fn low_byte(distance: int) -> u8 {
    (distance % 256) as u8
}

/// The distance that two operand bytes encode, high byte first.
pub open spec fn distance_of(high: u8, low: u8) -> int {
    high as int * 256 + low as int
}

/// The result of a step that may fail, with the state where it succeeds.
pub type Emitted = Result<CompilerView, CompileError>;

/// What every successful step keeps: the state stays well formed, the scope
/// depth is that of before, and no byte is taken away.
pub open spec fn steady(before: CompilerView, after: CompilerView) -> bool {
    &&& after.wf()
    &&& after.depth == before.depth
    &&& after.code().len() >= before.code().len()
}

impl CompilerView {
    /// The bytes emitted so far.
    pub open spec fn code(self) -> Seq<u8> {
        self.function.chunk.code
    }

    /// The constants added so far.
    pub open spec fn constants(self) -> Seq<ValueView> {
        self.function.chunk.constants
    }

    /// The state with another chunk.
    pub open spec fn with_chunk(self, chunk: ChunkView) -> CompilerView {
        CompilerView { function: FunctionView { chunk, ..self.function }, ..self }
    }

    /// What the compiler keeps true between any two steps: the chunk is well
    /// formed; slot 0 is there, at depth 0; no scope is deeper than the
    /// limit; every local is initialized, in a scope that is still open; and
    /// the locals stand in the order of their scopes.
    pub open spec fn wf(self) -> bool {
        &&& self.function.chunk.wf()
        &&& 1 <= self.locals.len() <= MAX_LOCALS
        &&& self.locals[0].depth == 0
        &&& 0 <= self.depth <= MAX_SCOPE_DEPTH
        &&& forall|i: int|
            0 <= i < self.locals.len() ==> 0 <= (#[trigger] self.locals[i]).depth <= self.depth
        &&& forall|i: int, j: int|
            0 <= i <= j < self.locals.len() ==> (#[trigger] self.locals[i]).depth <= (
            #[trigger] self.locals[j]).depth
    }

    /// After an opcode was emitted.
    pub open spec fn emit(self, opcode: Opcode) -> CompilerView {
        self.with_chunk(self.function.chunk.push(opcode.byte(), UNKNOWN_LINE))
    }

    /// After an operand byte was emitted.
    pub open spec fn emit_byte(self, byte: u8) -> CompilerView {
        self.with_chunk(self.function.chunk.push(byte, self.function.chunk.current_line()))
    }

    /// After an opcode and its one-byte operand were emitted.
    pub open spec fn emit_with(self, opcode: Opcode, operand: u8) -> CompilerView {
        self.emit(opcode).emit_byte(operand)
    }

    /// After `value` was added to the constants; fails when they are full.
    pub open spec fn add_constant(self, value: ValueView) -> Emitted {
        if self.constants().len() >= MAX_CONSTANTS {
            Err(CompileError::TooManyConstants)
        } else {
            Ok(self.with_chunk(self.function.chunk.with_constant(value)))
        }
    }

    /// The index that the next constant gets.
    pub open spec fn next_constant(self) -> u8 {
        self.constants().len() as u8
    }

    /// After `Constant` and the index of `value`, newly added, were emitted.
    pub open spec fn emit_constant(self, value: ValueView) -> Emitted {
        match self.add_constant(value) {
            Ok(s) => Ok(s.emit_with(Opcode::Constant, self.next_constant())),
            Err(e) => Err(e),
        }
    }

    /// After `opcode` and the index of `value`, newly added to the
    /// constants, were emitted.
    pub open spec fn emit_indexed(self, opcode: Opcode, value: ValueView) -> Emitted {
        match self.emit(opcode).add_constant(value) {
            Ok(s) => Ok(s.emit_byte(self.next_constant())),
            Err(e) => Err(e),
        }
    }

    /// After `opcode` and the index of the string `name`, newly added to the
    /// constants, were emitted.
    pub open spec fn emit_named(self, opcode: Opcode, name: Seq<char>) -> Emitted {
        self.emit_indexed(opcode, ValueView::String(name))
    }

    /// The offset at which a jump emitted now has its operand.
    pub open spec fn jump_slot(self) -> int {
        self.code().len() as int + 1
    }

    /// After a jump was emitted whose distance is still to be patched. The
    /// placeholder stands at `self.jump_slot()`.
    pub open spec fn emit_jump(self, opcode: Opcode) -> CompilerView {
        self.emit(opcode).emit_byte(0xff).emit_byte(0xff)
    }

    /// After the placeholder at `at` was overwritten with the distance from
    /// behind the placeholder to the end of the code.
    pub open spec fn patch_jump(self, at: int) -> Emitted {
        let distance = self.code().len() - at - 2;
        if distance > MAX_JUMP {
            Err(CompileError::JumpTooLarge)
        } else {
            Ok(
                self.with_chunk(
                    ChunkView {
                        code: self.code().update(at, high_byte(distance)).update(
                            at + 1,
                            low_byte(distance),
                        ),
                        ..self.function.chunk
                    },
                ),
            )
        }
    }

    /// After a backward jump to offset `start` was emitted.
    pub open spec fn emit_loop(self, start: int) -> Emitted {
        let distance = self.code().len() + 3 - start;
        if distance > MAX_JUMP {
            Err(CompileError::JumpTooLarge)
        } else {
            Ok(self.emit(Opcode::Loop).emit_byte(high_byte(distance)).emit_byte(low_byte(distance)))
        }
    }

    /// After a scope was entered.
    pub open spec fn begin_scope(self) -> CompilerView {
        CompilerView { depth: self.depth + 1, ..self }
    }

    /// After the locals deeper than the current scope were dropped, last
    /// declared first, with one `Pop` for each.
    pub open spec fn pop_locals(self) -> CompilerView
        decreases self.locals.len(),
    {
        if self.locals.len() > 0 && self.locals.last().depth > self.depth {
            (CompilerView { locals: self.locals.drop_last(), ..self.emit(Opcode::Pop) }).pop_locals()
        } else {
            self
        }
    }

    /// After the current scope was left.
    pub open spec fn end_scope(self) -> CompilerView {
        (CompilerView { depth: self.depth - 1, ..self }).pop_locals()
    }

    /// The last of the first `n` locals that is called `name`.
    pub open spec fn find_local(self, name: Seq<char>, n: int) -> Option<int>
        decreases n,
    {
        if n <= 0 {
            None
        } else if self.locals[n - 1].name == name {
            Some(n - 1)
        } else {
            self.find_local(name, n - 1)
        }
    }

    /// The slot of the variable `name`: that of the local declared last
    /// under that name, `None` where no local has it (the variable is then
    /// global), and an error where that local is not yet initialized.
    pub open spec fn resolve_local(self, name: Seq<char>) -> Result<Option<int>, CompileError> {
        match self.find_local(name, self.locals.len() as int) {
            Some(i) => if self.locals[i].depth == -1 {
                Err(CompileError::OwnInitializer)
            } else {
                Ok(Some(i))
            },
            None => Ok(None),
        }
    }

    /// Whether one of the first `n` locals is called `name` and was declared
    /// in the current scope. The scan runs from the last local back and ends
    /// at the first local of an enclosing scope.
    pub open spec fn declared_in_scope(self, name: Seq<char>, n: int) -> bool
        decreases n,
    {
        if n <= 0 {
            false
        } else if self.locals[n - 1].depth != -1 && self.locals[n - 1].depth < self.depth {
            false
        } else if self.locals[n - 1].name == name {
            true
        } else {
            self.declared_in_scope(name, n - 1)
        }
    }

    /// After the local `name` was declared in the current scope and marked
    /// initialized. Its slot is the number of locals before it.
    pub open spec fn declare_local(self, name: Seq<char>) -> Emitted {
        if self.declared_in_scope(name, self.locals.len() as int) {
            Err(CompileError::DuplicateLocal)
        } else if self.locals.len() >= MAX_LOCALS {
            Err(CompileError::TooManyLocals)
        } else {
            Ok(CompilerView { locals: self.locals.push(LocalView { name, depth: self.depth }), ..self })
        }
    }

    /// After the value on top of the stack became the variable `name`: a
    /// local inside a scope, a global at the top level.
    pub open spec fn define_variable(self, name: Seq<char>) -> Emitted {
        if self.depth > 0 {
            self.declare_local(name)
        } else {
            self.emit_named(Opcode::DefineGlobal, name)
        }
    }

    /// After a read of the variable `name` was emitted.
    pub open spec fn emit_get(self, name: Seq<char>) -> Emitted {
        match self.resolve_local(name) {
            Err(e) => Err(e),
            Ok(Some(slot)) => Ok(self.emit_with(Opcode::GetLocal, slot as u8)),
            Ok(None) => self.emit_named(Opcode::GetGlobal, name),
        }
    }

    /// After a write to the variable `name` was emitted.
    pub open spec fn emit_set(self, name: Seq<char>) -> Emitted {
        match self.resolve_local(name) {
            Err(e) => Err(e),
            Ok(Some(slot)) => Ok(self.emit_with(Opcode::SetLocal, slot as u8)),
            Ok(None) => self.emit_named(Opcode::SetGlobal, name),
        }
    }

    /// After the opcodes of a binary operator were emitted.
    pub open spec fn emit_operator(self, operator: BinaryOperator) -> CompilerView {
        match operator {
            BinaryOperator::Add => self.emit(Opcode::Add),
            BinaryOperator::Subtract => self.emit(Opcode::Subtract),
            BinaryOperator::Multiply => self.emit(Opcode::Multiply),
            BinaryOperator::Divide => self.emit(Opcode::Divide),
            BinaryOperator::Equal => self.emit(Opcode::Equal),
            BinaryOperator::BangEqual => self.emit(Opcode::Equal).emit(Opcode::Not),
            BinaryOperator::GreaterThan => self.emit(Opcode::Greater),
            BinaryOperator::GreaterThanEqual => self.emit(Opcode::Less).emit(Opcode::Not),
            BinaryOperator::LessThan => self.emit(Opcode::Less),
            BinaryOperator::LessThanEqual => self.emit(Opcode::Greater).emit(Opcode::Not),
        }
    }

    /// After the implicit `return nil` at the end of a function.
    pub open spec fn emit_return(self) -> CompilerView {
        self.emit(Opcode::Nil).emit(Opcode::Return)
    }

    /// The state in which compiling the function `name` starts.
    pub open spec fn fresh_function(name: Seq<char>) -> CompilerView {
        let fresh = CompilerView::fresh(GreenFunctionType::Function);
        CompilerView {
            function: FunctionView {
                name,
                arity: 0,
                chunk: ChunkView { name: Some(name), ..fresh.function.chunk },
            },
            ..fresh
        }
    }

    /// After one more parameter, `name`, was declared.
    pub open spec fn declare_parameter(self, name: Seq<char>) -> Emitted {
        if self.function.arity >= MAX_OPERAND {
            Err(CompileError::TooManyParameters)
        } else {
            (CompilerView {
                function: FunctionView {
                    arity: (self.function.arity + 1) as u8,
                    ..self.function
                },
                ..self
            }).declare_local(name)
        }
    }

    /// After the parameters `from ..` were declared, in order.
    pub open spec fn declare_parameters(self, parameters: Seq<Variable>, from: int) -> Emitted
        decreases parameters.len() - from,
    {
        if from < 0 || from >= parameters.len() {
            Ok(self)
        } else {
            match self.declare_parameter(parameters[from].name@) {
                Ok(s) => s.declare_parameters(parameters, from + 1),
                Err(e) => Err(e),
            }
        }
    }
}

/// The opcode of a unary operator.
pub open spec fn unary_opcode(operator: UnaryOperator) -> Opcode {
    match operator {
        UnaryOperator::Negate => Opcode::Negate,
        UnaryOperator::Not => Opcode::Not,
    }
}

/// The state after a literal was compiled.
pub open spec fn compile_literal(literal: LiteralExpr, st: CompilerView) -> Emitted {
    match literal {
        LiteralExpr::Number(n) => st.emit_constant(ValueView::Number(n)),
        LiteralExpr::String(s) => st.emit_constant(ValueView::String(s@)),
        LiteralExpr::True => st.emit_constant(ValueView::True),
        LiteralExpr::False => st.emit_constant(ValueView::False),
        LiteralExpr::Nil => Ok(st.emit(Opcode::Nil)),
    }
}

/// The state after `e` was compiled where its value is needed. A statement
/// has no value: it is rejected there.
pub open spec fn compile_value(e: Expr, st: CompilerView, env: ModuleTable, fuel: nat) -> Emitted
    decreases fuel, e, 1nat,
{
    if e.node.yields_value() {
        compile_node(*e.node, st, env, fuel)
    } else {
        Err(CompileError::ExpectedExpression)
    }
}

/// The state after `e` was compiled as a statement. The value of an
/// expression is popped: a statement leaves nothing behind.
pub open spec fn compile_statement(e: Expr, st: CompilerView, env: ModuleTable, fuel: nat) -> Emitted
    decreases fuel, e, 1nat,
{
    match compile_node(*e.node, st, env, fuel) {
        Ok(s) => if e.node.yields_value() {
            Ok(s.emit(Opcode::Pop))
        } else {
            Ok(s)
        },
        Err(err) => Err(err),
    }
}

/// The state after the statements `from ..` of `es` were compiled in order.
pub open spec fn compile_statements(
    es: Seq<Expr>,
    from: int,
    st: CompilerView,
    env: ModuleTable,
    fuel: nat,
) -> Emitted
    decreases fuel, es, es.len() - from,
{
    if from < 0 || from >= es.len() {
        Ok(st)
    } else {
        match compile_statement(es[from], st, env, fuel) {
            Ok(s) => compile_statements(es, from + 1, s, env, fuel),
            Err(err) => Err(err),
        }
    }
}

/// The state after the values `from ..` of `es` were compiled in order.
pub open spec fn compile_values(
    es: Seq<Expr>,
    from: int,
    st: CompilerView,
    env: ModuleTable,
    fuel: nat,
) -> Emitted
    decreases fuel, es, es.len() - from,
{
    if from < 0 || from >= es.len() {
        Ok(st)
    } else {
        match compile_value(es[from], st, env, fuel) {
            Ok(s) => compile_values(es, from + 1, s, env, fuel),
            Err(err) => Err(err),
        }
    }
}

/// The state after `es` was compiled in a scope of its own.
pub open spec fn compile_block(
    es: Seq<Expr>,
    st: CompilerView,
    env: ModuleTable,
    fuel: nat,
) -> Emitted
    decreases fuel, es, es.len() + 1,
{
    if st.depth >= MAX_SCOPE_DEPTH {
        Err(CompileError::TooManyScopes)
    } else {
        match compile_statements(es, 0, st.begin_scope(), env, fuel) {
            Ok(s) => Ok(s.end_scope()),
            Err(err) => Err(err),
        }
    }
}

/// The state after the statement `e` was compiled in a scope of its own.
pub open spec fn compile_scoped(e: Expr, st: CompilerView, env: ModuleTable, fuel: nat) -> Emitted
    decreases fuel, e, 2nat,
{
    if st.depth >= MAX_SCOPE_DEPTH {
        Err(CompileError::TooManyScopes)
    } else {
        match compile_statement(e, st.begin_scope(), env, fuel) {
            Ok(s) => Ok(s.end_scope()),
            Err(err) => Err(err),
        }
    }
}

/// Whether the last of the statements is a `return`.
pub open spec fn ends_in_return(es: Seq<Expr>) -> bool {
    es.len() > 0 && (*es.last().node) is Return
}

/// The function that the declaration `f` compiles to: the parameters are
/// the first locals, the body is a block, and an implicit `return nil`
/// ends it unless the body ends in a `return` of its own.
pub open spec fn compile_function(f: FunctionExpr, env: ModuleTable, fuel: nat) -> Result<
    FunctionView,
    CompileError,
>
    decreases fuel, f, 0nat,
{
    let start = CompilerView::fresh_function(f.variable.name@).begin_scope();
    match start.declare_parameters(f.declaration.parameters@, 0) {
        Err(err) => Err(err),
        Ok(with_parameters) => match compile_block(
            f.declaration.body.exprs@,
            with_parameters,
            env,
            fuel,
        ) {
            Err(err) => Err(err),
            Ok(done) => if ends_in_return(f.declaration.body.exprs@) {
                Ok(done.function)
            } else {
                Ok(done.emit_return().function)
            },
        },
    }
}

/// The state after the node `k` was compiled: one rule for each kind. An
/// import stands for the statements of the module of that name, in place;
/// each level of nesting takes one unit of `fuel`.
pub open spec fn compile_node(k: ExprKind, st: CompilerView, env: ModuleTable, fuel: nat) -> Emitted
    decreases fuel, k, 0nat,
{
    match k {
        ExprKind::Sequence(s) => compile_statements(s.exprs@, 0, st, env, fuel),
        ExprKind::Import(i) => if fuel == 0 {
            Err(CompileError::ImportTooDeep)
        } else {
            match env.find(i.module@) {
                Some(m) => if 0 <= m < env.modules@.len() {
                    compile_statements(env.modules@[m].exprs@, 0, st, env, (fuel - 1) as nat)
                } else {
                    Err(CompileError::UnresolvedImport)
                },
                None => Err(CompileError::UnresolvedImport),
            }
        },
        ExprKind::Literal(l) => compile_literal(l, st),
        ExprKind::Binary(b) => compile_binary(b, st, env, fuel),
        ExprKind::Unary(u) => compile_unary(u, st, env, fuel),
        ExprKind::Block(b) => compile_block(b.exprs@, st, env, fuel),
        ExprKind::VarAssign(v) => compile_var_assign(v, st, env, fuel),
        ExprKind::VarSet(v) => compile_var_set(v, st, env, fuel),
        ExprKind::VarGet(v) => st.emit_get(v.variable.name@),
        ExprKind::Print(p) => compile_print(p, st, env, fuel),
        ExprKind::Grouping(g) => compile_value(g.expr, st, env, fuel),
        ExprKind::If(i) => compile_if(i, st, env, fuel),
        ExprKind::IfElse(i) => compile_if_else(i, st, env, fuel),
        ExprKind::Function(f) => compile_declaration(f, st, env, fuel),
        ExprKind::Class(c) => compile_class(c, st),
        ExprKind::Call(c) => compile_call(c, st, env, fuel),
        ExprKind::While(w) => compile_while(w, st, env, fuel),
        ExprKind::Return(r) => compile_return(r, st, env, fuel),
        ExprKind::GetProperty(g) => compile_get_property(g, st, env, fuel),
        ExprKind::SetProperty(p) => compile_set_property(p, st, env, fuel),
        ExprKind::Array(a) => compile_array(a, st, env, fuel),
        ExprKind::Subscript(s) => compile_subscript(s, st, env, fuel),
    }
}

/// A binary operation: the left operand, the right operand, the operator.
pub open spec fn compile_binary(b: BinaryExpr, st: CompilerView, env: ModuleTable, fuel: nat) -> Emitted
    decreases fuel, b, 0nat,
{
    match compile_value(b.lhs, st, env, fuel) {
        Err(err) => Err(err),
        Ok(s1) => match compile_value(b.rhs, s1, env, fuel) {
            Err(err) => Err(err),
            Ok(s2) => Ok(s2.emit_operator(b.operator)),
        },
    }
}

/// A unary operation: the operand, then the operator.
pub open spec fn compile_unary(u: UnaryExpr, st: CompilerView, env: ModuleTable, fuel: nat) -> Emitted
    decreases fuel, u, 0nat,
{
    match compile_value(u.expr, st, env, fuel) {
        Err(err) => Err(err),
        Ok(s) => Ok(s.emit(unary_opcode(u.operator))),
    }
}

/// `var x = e`: the initializer, whose value then is the variable.
pub open spec fn compile_var_assign(v: VarAssignExpr, st: CompilerView, env: ModuleTable, fuel: nat) -> Emitted
    decreases fuel, v, 0nat,
{
    match compile_value(v.initializer, st, env, fuel) {
        Err(err) => Err(err),
        Ok(s) => s.define_variable(v.variable.name@),
    }
}

/// `x = e`: the value, then the store, which leaves the value.
pub open spec fn compile_var_set(v: VarSetExpr, st: CompilerView, env: ModuleTable, fuel: nat) -> Emitted
    decreases fuel, v, 0nat,
{
    match compile_value(v.initializer, st, env, fuel) {
        Err(err) => Err(err),
        Ok(s) => s.emit_set(v.variable.name@),
    }
}

/// `print e`: the value, then `Print`.
pub open spec fn compile_print(p: PrintExpr, st: CompilerView, env: ModuleTable, fuel: nat) -> Emitted
    decreases fuel, p, 0nat,
{
    match compile_value(p.expr, st, env, fuel) {
        Err(err) => Err(err),
        Ok(s) => Ok(s.emit(Opcode::Print)),
    }
}

/// A conditional without `else`: the condition; a jump over the arm, taken if the
/// condition is false; the arm in a scope of its own; a jump over the `Pop` that
/// drops the condition on the other path.
pub open spec fn compile_if(i: IfExpr, st: CompilerView, env: ModuleTable, fuel: nat) -> Emitted
    decreases fuel, i, 0nat,
{
    match compile_value(i.condition, st, env, fuel) {
        Err(err) => Err(err),
        Ok(s1) => match compile_scoped(
            i.then_clause,
            s1.emit_jump(Opcode::JumpIfFalse).emit(Opcode::Pop),
            env,
            fuel,
        ) {
            Err(err) => Err(err),
            Ok(s2) => match s2.emit_jump(Opcode::Jump).patch_jump(s1.jump_slot()) {
                Err(err) => Err(err),
                Ok(s3) => s3.emit(Opcode::Pop).patch_jump(s2.jump_slot()),
            },
        },
    }
}

/// A conditional with `else`: the condition; a jump to the second arm, taken if
/// the condition is false; the first arm; a jump over the second arm; the second
/// arm.
pub open spec fn compile_if_else(i: IfElseExpr, st: CompilerView, env: ModuleTable, fuel: nat) -> Emitted
    decreases fuel, i, 0nat,
{
    match compile_value(i.condition, st, env, fuel) {
        Err(err) => Err(err),
        Ok(s1) => match compile_block(
            i.then_clause.exprs@,
            s1.emit_jump(Opcode::JumpIfFalse).emit(Opcode::Pop),
            env,
            fuel,
        ) {
            Err(err) => Err(err),
            Ok(s2) => match s2.emit_jump(Opcode::Jump).patch_jump(s1.jump_slot()) {
                Err(err) => Err(err),
                Ok(s3) => match compile_block(i.else_clause.exprs@, s3.emit(Opcode::Pop), env, fuel) {
                    Err(err) => Err(err),
                    Ok(s4) => s4.patch_jump(s2.jump_slot()),
                },
            },
        },
    }
}

/// A function declaration: `Closure` with the compiled function as a constant,
/// whose value then is the variable of the function's name.
pub open spec fn compile_declaration(f: FunctionExpr, st: CompilerView, env: ModuleTable, fuel: nat) -> Emitted
    decreases fuel, f, 1nat,
{
    match compile_function(f, env, fuel) {
        Err(err) => Err(err),
        Ok(function) => match st.emit_indexed(Opcode::Closure, ValueView::Function(function)) {
            Err(err) => Err(err),
            Ok(s) => s.define_variable(f.variable.name@),
        },
    }
}

/// A class declaration: `Class` with the name as a constant. Inside a scope
/// the class is a new local; at the top level it is defined as a global.
pub open spec fn compile_class(c: ClassExpr, st: CompilerView) -> Emitted {
    match st.add_constant(ValueView::String(c.name.name@)) {
        Err(err) => Err(err),
        Ok(s1) => if st.depth > 0 {
            match s1.declare_local(c.name.name@) {
                Err(err) => Err(err),
                Ok(s2) => Ok(s2.emit_with(Opcode::Class, st.next_constant())),
            }
        } else {
            s1.emit_with(Opcode::Class, st.next_constant()).emit_named(
                Opcode::DefineGlobal,
                c.name.name@,
            )
        },
    }
}

/// A call: the callee, the arguments from left to right, then `Call` with their number.
pub open spec fn compile_call(c: CallExpr, st: CompilerView, env: ModuleTable, fuel: nat) -> Emitted
    decreases fuel, c, 0nat,
{
    if c.args@.len() > MAX_OPERAND {
        Err(CompileError::TooManyArguments)
    } else {
        match compile_value(c.callee, st, env, fuel) {
            Err(err) => Err(err),
            Ok(s1) => match compile_values(c.args@, 0, s1, env, fuel) {
                Err(err) => Err(err),
                Ok(s2) => Ok(s2.emit_with(Opcode::Call, c.args@.len() as u8)),
            },
        }
    }
}

/// A loop: the condition; the exit jump, taken if the condition is false; the
/// body in a scope of its own; the jump back to the condition; the `Pop` that
/// drops the condition at the exit.
pub open spec fn compile_while(w: WhileExpr, st: CompilerView, env: ModuleTable, fuel: nat) -> Emitted
    decreases fuel, w, 0nat,
{
    match compile_value(w.condition, st, env, fuel) {
        Err(err) => Err(err),
        Ok(s1) => match compile_scoped(
            w.body,
            s1.emit_jump(Opcode::JumpIfFalse).emit(Opcode::Pop),
            env,
            fuel,
        ) {
            Err(err) => Err(err),
            Ok(s2) => match s2.emit_loop(st.code().len() as int) {
                Err(err) => Err(err),
                Ok(s3) => match s3.patch_jump(s1.jump_slot()) {
                    Err(err) => Err(err),
                    Ok(s4) => Ok(s4.emit(Opcode::Pop)),
                },
            },
        },
    }
}

/// `return`: the value, or `Nil` where there is none, then `Return`. The
/// top-level script may not return.
pub open spec fn compile_return(r: ReturnExpr, st: CompilerView, env: ModuleTable, fuel: nat) -> Emitted
    decreases fuel, r, 0nat,
{
    if st.kind == GreenFunctionType::Script {
        Err(CompileError::ReturnOutsideFunction)
    } else {
        match r.expr {
            Some(e) => match compile_value(e, st, env, fuel) {
                Err(err) => Err(err),
                Ok(s) => Ok(s.emit(Opcode::Return)),
            },
            None => Ok(st.emit_return()),
        }
    }
}

/// `e.property`: the object, then `GetProperty` with the name as a constant.
pub open spec fn compile_get_property(g: GetExpr, st: CompilerView, env: ModuleTable, fuel: nat) -> Emitted
    decreases fuel, g, 0nat,
{
    match compile_value(g.expr, st, env, fuel) {
        Err(err) => Err(err),
        Ok(s) => s.emit_named(Opcode::GetProperty, g.property@),
    }
}

/// `lhs.property = rhs`: the object, the value, then `SetProperty` with the name as a constant.
pub open spec fn compile_set_property(p: SetExpr, st: CompilerView, env: ModuleTable, fuel: nat) -> Emitted
    decreases fuel, p, 0nat,
{
    match compile_value(p.lhs, st, env, fuel) {
        Err(err) => Err(err),
        Ok(s1) => match compile_value(p.rhs, s1, env, fuel) {
            Err(err) => Err(err),
            Ok(s2) => s2.emit_named(Opcode::SetProperty, p.property@),
        },
    }
}

/// An array literal: the elements from left to right, then `NewArray` with their number.
pub open spec fn compile_array(a: ArrayExpr, st: CompilerView, env: ModuleTable, fuel: nat) -> Emitted
    decreases fuel, a, 0nat,
{
    match a.exprs {
        None => Ok(st.emit_with(Opcode::NewArray, 0)),
        Some(es) => if es@.len() > MAX_OPERAND {
            Err(CompileError::TooManyElements)
        } else {
            match compile_values(es@, 0, st, env, fuel) {
                Err(err) => Err(err),
                Ok(s) => Ok(s.emit_with(Opcode::NewArray, es@.len() as u8)),
            }
        },
    }
}

/// `a[i]`: the array, the index, `IndexSubscript`. `a[i] = e`: the array, the
/// index, the value, `StoreSubscript`.
pub open spec fn compile_subscript(s: SubscriptExpr, st: CompilerView, env: ModuleTable, fuel: nat) -> Emitted
    decreases fuel, s, 0nat,
{
    match compile_value(s.callee, st, env, fuel) {
        Err(err) => Err(err),
        Ok(s1) => match compile_value(s.index, s1, env, fuel) {
            Err(err) => Err(err),
            Ok(s2) => match s.expr {
                Some(e) => match compile_value(e, s2, env, fuel) {
                    Err(err) => Err(err),
                    Ok(s3) => Ok(s3.emit(Opcode::StoreSubscript)),
                },
                None => Ok(s2.emit(Opcode::IndexSubscript)),
            },
        },
    }
}

/// Whether the node `k` is refused before anything is emitted for it: a
/// `return` at the top level, a call or an array literal with more
/// operands than one byte counts, an import that cannot be followed, a
/// block that would be nested too deep, a literal for which no constant is
/// left. The compiler's state is then as it was.
pub open spec fn fails_at_once(k: ExprKind, st: CompilerView, env: ModuleTable, fuel: nat) -> bool {
    match k {
        ExprKind::Return(_) => st.kind == GreenFunctionType::Script,
        ExprKind::Call(c) => c.args@.len() > MAX_OPERAND,
        ExprKind::Array(a) => a.exprs matches Some(es) && es@.len() > MAX_OPERAND,
        ExprKind::Import(i) => fuel == 0 || env.find(i.module@) is None,
        ExprKind::Block(_) => st.depth >= MAX_SCOPE_DEPTH,
        ExprKind::Literal(l) => !(l is Nil) && st.constants().len() >= MAX_CONSTANTS,
        _ => false,
    }
}

/// What is refused at once is refused.
pub proof fn lemma_fails_at_once(k: ExprKind, st: CompilerView, env: ModuleTable, fuel: nat)
    requires
        fails_at_once(k, st, env, fuel),
    ensures
        compile_node(k, st, env, fuel) is Err,
{
}

/// The function that a module compiles to: its statements in order, then
/// the implicit `return nil`.
pub open spec fn compile_program(es: Seq<Expr>, env: ModuleTable) -> Result<
    FunctionView,
    CompileError,
> {
    match compile_statements(
        es,
        0,
        CompilerView::fresh(GreenFunctionType::Script),
        env,
        MAX_IMPORT_DEPTH as nat,
    ) {
        Ok(s) => Ok(s.emit_return().function),
        Err(err) => Err(err),
    }
}

} // verus!
