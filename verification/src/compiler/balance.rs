//! The stack stays in balance: the proof, rule by rule, that what the
//! compiler emits for a node is well typed, adds one value where the node
//! is an expression, and adds nothing but the locals that it declares
//! where the node is a statement.

use crate::compiler::instance::{CompilerView, MAX_SCOPE_DEPTH};
use crate::compiler::laws::{
    balanced, extends, lemma_add_constant, lemma_balanced_empty, lemma_balanced_join,
    lemma_conditional, lemma_declare_local, lemma_define_variable, lemma_emit,
    lemma_emit_constant, lemma_emit_get, lemma_emit_indexed, lemma_emit_named, lemma_emit_set,
    lemma_emit_with, lemma_extends_refl, lemma_join, lemma_loop, lemma_scope_exit_is_lifo,
    scope_ok, statement_ok, value_ok, values_ok,
};
use crate::compiler::module_resolver::ModuleTable;
use crate::compiler::object::GreenFunctionType;
use crate::compiler::opcode::Opcode;
use crate::compiler::rules::{
    compile_array, compile_binary, compile_block, compile_call, compile_class,
    compile_declaration, compile_function, compile_get_property, compile_if, compile_if_else,
    compile_literal, compile_node, compile_print, compile_program, compile_return,
    compile_scoped, compile_set_property, compile_statement, compile_statements,
    compile_subscript, compile_unary, compile_value, compile_values, compile_var_assign,
    compile_var_set, compile_while, ends_in_return, MAX_IMPORT_DEPTH, unary_opcode,
};
use crate::compiler::typing::{prefix_of, well_typed, well_typed_pool};
use crate::compiler::value::{FunctionView, ValueView};
use crate::syntax::expr::{
    ArrayExpr, BinaryExpr, BinaryOperator, CallExpr, ClassExpr, Expr, ExprKind, FunctionExpr,
    GetExpr, IfElseExpr, IfExpr, LiteralExpr, PrintExpr, ReturnExpr, SetExpr, SubscriptExpr,
    UnaryExpr, VarAssignExpr, Variable, VarSetExpr, WhileExpr,
};
use vstd::prelude::*;

verus! {

/// Expressions add one value. Where an expression compiles, the bytes
/// emitted for it are well typed when they are entered with any height
/// `h` that holds the locals, they leave the height at `h + 1`, and they
/// leave the locals as they were.
pub proof fn lemma_value_adds_one(e: Expr, st: CompilerView, env: ModuleTable, fuel: nat, h: int)
    requires
        st.wf(),
        h >= st.locals.len(),
        compile_value(e, st, env, fuel) is Ok,
    ensures
        value_ok(st, compile_value(e, st, env, fuel)->Ok_0, h),
    decreases fuel, e, 1nat,
{
    lemma_node(*e.node, st, env, fuel, h);
}

/// Statements keep the balance. Where a statement compiles, the bytes
/// emitted for it are well typed when they are entered with any height
/// `h` that holds the locals, and they leave the height as much higher as
/// the statement declared locals: the value of an expression statement is
/// popped, and a value that stays is a local.
pub proof fn lemma_statement_keeps_balance(
    e: Expr,
    st: CompilerView,
    env: ModuleTable,
    fuel: nat,
    h: int,
)
    requires
        st.wf(),
        h >= st.locals.len(),
        compile_statement(e, st, env, fuel) is Ok,
    ensures
        statement_ok(st, compile_statement(e, st, env, fuel)->Ok_0, h),
    decreases fuel, e, 1nat,
{
    lemma_node(*e.node, st, env, fuel, h);
    if e.node.yields_value() {
        let s = compile_node(*e.node, st, env, fuel)->Ok_0;
        lemma_emit(s, Opcode::Pop, h + 1);
        lemma_join(st, s, s.emit(Opcode::Pop), h, 1, -1);
    }
}

/// Statements in a row keep the balance.
pub proof fn lemma_statements(
    es: Seq<Expr>,
    from: int,
    st: CompilerView,
    env: ModuleTable,
    fuel: nat,
    h: int,
)
    requires
        st.wf(),
        h >= st.locals.len(),
        0 <= from,
        compile_statements(es, from, st, env, fuel) is Ok,
    ensures
        statement_ok(st, compile_statements(es, from, st, env, fuel)->Ok_0, h),
    decreases fuel, es, es.len() - from,
{
    if from >= es.len() {
        lemma_extends_refl(st);
        lemma_balanced_empty(st, st, h);
    } else {
        let s1 = compile_statement(es[from], st, env, fuel)->Ok_0;
        lemma_statement_keeps_balance(es[from], st, env, fuel, h);
        let d1 = s1.locals.len() - st.locals.len();
        lemma_statements(es, from + 1, s1, env, fuel, h + d1);
        let s2 = compile_statements(es, from + 1, s1, env, fuel)->Ok_0;
        lemma_join(st, s1, s2, h, d1, s2.locals.len() - s1.locals.len());
    }
}

/// Values in a row add one value each.
pub proof fn lemma_values(
    es: Seq<Expr>,
    from: int,
    st: CompilerView,
    env: ModuleTable,
    fuel: nat,
    h: int,
)
    requires
        st.wf(),
        h >= st.locals.len(),
        0 <= from <= es.len(),
        compile_values(es, from, st, env, fuel) is Ok,
    ensures
        values_ok(st, compile_values(es, from, st, env, fuel)->Ok_0, h, es.len() - from),
    decreases fuel, es, es.len() - from,
{
    if from >= es.len() {
        lemma_extends_refl(st);
        lemma_balanced_empty(st, st, h);
    } else {
        let s1 = compile_value(es[from], st, env, fuel)->Ok_0;
        lemma_value_adds_one(es[from], st, env, fuel, h);
        lemma_values(es, from + 1, s1, env, fuel, h + 1);
        let s2 = compile_values(es, from + 1, s1, env, fuel)->Ok_0;
        lemma_join(st, s1, s2, h, 1, es.len() - from - 1);
    }
}

/// What is left when the scope is left that was entered from `st` and in
/// which `inner` was reached.
pub proof fn lemma_leave_scope(st: CompilerView, inner: CompilerView, h: int)
    requires
        st.wf(),
        st.depth < MAX_SCOPE_DEPTH,
        h >= st.locals.len(),
        statement_ok(st.begin_scope(), inner, h),
    ensures
        scope_ok(st, inner.end_scope(), h),
{
    let entered = st.begin_scope();
    let outer = st.locals.len() as int;
    let d = inner.locals.len() - outer;
    assert forall|i: int| 0 <= i < outer implies (#[trigger] inner.locals[i]).depth
        < inner.depth by {
        assert(inner.locals[i] == entered.locals[i]);
        assert(st.locals[i].depth <= st.depth);
    }
    lemma_scope_exit_is_lifo(inner, outer, h + d);
    let s = inner.end_scope();
    assert(s.locals =~= st.locals);
    assert(prefix_of(inner.constants(), s.constants()));
    lemma_balanced_join(entered, inner, s, h, d, -d);
    assert(entered.code() == st.code());
    assert(extends(st, s)) by {
        assert forall|i: int| 0 <= i < st.code().len() implies st.code()[i] == s.code()[i] by {
            assert(inner.code()[i] == entered.code()[i]);
        }
        assert forall|i: int| 0 <= i < st.constants().len() implies s.constants()[i]
            == st.constants()[i] by {
            assert(inner.constants()[i] == entered.constants()[i]);
        }
    }
}

/// A block leaves locals and height as they were.
pub proof fn lemma_block(es: Seq<Expr>, st: CompilerView, env: ModuleTable, fuel: nat, h: int)
    requires
        st.wf(),
        h >= st.locals.len(),
        compile_block(es, st, env, fuel) is Ok,
    ensures
        scope_ok(st, compile_block(es, st, env, fuel)->Ok_0, h),
    decreases fuel, es, es.len() + 1,
{
    lemma_statements(es, 0, st.begin_scope(), env, fuel, h);
    lemma_leave_scope(st, compile_statements(es, 0, st.begin_scope(), env, fuel)->Ok_0, h);
}

/// A statement in a scope of its own leaves locals and height as they
/// were.
pub proof fn lemma_scoped(e: Expr, st: CompilerView, env: ModuleTable, fuel: nat, h: int)
    requires
        st.wf(),
        h >= st.locals.len(),
        compile_scoped(e, st, env, fuel) is Ok,
    ensures
        scope_ok(st, compile_scoped(e, st, env, fuel)->Ok_0, h),
    decreases fuel, e, 2nat,
{
    lemma_statement_keeps_balance(e, st.begin_scope(), env, fuel, h);
    lemma_leave_scope(st, compile_statement(e, st.begin_scope(), env, fuel)->Ok_0, h);
}

/// What a node leaves, by its kind.
pub open spec fn node_ok(k: ExprKind, before: CompilerView, after: CompilerView, h: int) -> bool {
    if k.yields_value() {
        value_ok(before, after, h)
    } else {
        statement_ok(before, after, h)
    }
}

/// Every node keeps the balance: one rule after the other.
pub proof fn lemma_node(k: ExprKind, st: CompilerView, env: ModuleTable, fuel: nat, h: int)
    requires
        st.wf(),
        h >= st.locals.len(),
        compile_node(k, st, env, fuel) is Ok,
    ensures
        node_ok(k, st, compile_node(k, st, env, fuel)->Ok_0, h),
    decreases fuel, k, 0nat,
{
    match k {
        ExprKind::Sequence(s) => lemma_statements(s.exprs@, 0, st, env, fuel, h),
        ExprKind::Import(i) => {
            let m = env.find(i.module@)->0;
            lemma_statements(env.modules@[m].exprs@, 0, st, env, (fuel - 1) as nat, h);
        },
        ExprKind::Literal(l) => lemma_literal(l, st, h),
        ExprKind::Binary(b) => lemma_binary(b, st, env, fuel, h),
        ExprKind::Unary(u) => lemma_unary(u, st, env, fuel, h),
        ExprKind::Block(b) => lemma_block(b.exprs@, st, env, fuel, h),
        ExprKind::VarAssign(v) => lemma_var_assign(v, st, env, fuel, h),
        ExprKind::VarSet(v) => lemma_var_set(v, st, env, fuel, h),
        ExprKind::VarGet(v) => lemma_emit_get(st, v.variable.name@, h),
        ExprKind::Print(p) => lemma_print(p, st, env, fuel, h),
        ExprKind::Grouping(g) => lemma_value_adds_one(g.expr, st, env, fuel, h),
        ExprKind::If(i) => lemma_if(i, st, env, fuel, h),
        ExprKind::IfElse(i) => lemma_if_else(i, st, env, fuel, h),
        ExprKind::Function(f) => lemma_declaration(f, st, env, fuel, h),
        ExprKind::Class(c) => lemma_class(c, st, h),
        ExprKind::Call(c) => lemma_call(c, st, env, fuel, h),
        ExprKind::While(w) => lemma_while(w, st, env, fuel, h),
        ExprKind::Return(r) => lemma_return(r, st, env, fuel, h),
        ExprKind::GetProperty(g) => lemma_get_property(g, st, env, fuel, h),
        ExprKind::SetProperty(p) => lemma_set_property(p, st, env, fuel, h),
        ExprKind::Array(a) => lemma_array(a, st, env, fuel, h),
        ExprKind::Subscript(s) => lemma_subscript(s, st, env, fuel, h),
    }
}

proof fn lemma_literal(l: LiteralExpr, st: CompilerView, h: int)
    requires
        st.wf(),
        h >= st.locals.len(),
        compile_literal(l, st) is Ok,
    ensures
        value_ok(st, compile_literal(l, st)->Ok_0, h),
{
    match l {
        LiteralExpr::Number(n) => lemma_emit_constant(st, ValueView::Number(n), h),
        LiteralExpr::String(s) => lemma_emit_constant(st, ValueView::String(s@), h),
        LiteralExpr::True => lemma_emit_constant(st, ValueView::True, h),
        LiteralExpr::False => lemma_emit_constant(st, ValueView::False, h),
        LiteralExpr::Nil => lemma_emit(st, Opcode::Nil, h),
    }
}

/// The opcodes of a binary operator take two values and leave one.
proof fn lemma_operator(st: CompilerView, operator: BinaryOperator, h: int)
    requires
        st.wf(),
        h >= 2,
    ensures
        extends(st, st.emit_operator(operator)),
        st.emit_operator(operator).locals == st.locals,
        balanced(st, st.emit_operator(operator), h, -1),
{
    match operator {
        BinaryOperator::Add => lemma_emit(st, Opcode::Add, h),
        BinaryOperator::Subtract => lemma_emit(st, Opcode::Subtract, h),
        BinaryOperator::Multiply => lemma_emit(st, Opcode::Multiply, h),
        BinaryOperator::Divide => lemma_emit(st, Opcode::Divide, h),
        BinaryOperator::Equal => lemma_emit(st, Opcode::Equal, h),
        BinaryOperator::GreaterThan => lemma_emit(st, Opcode::Greater, h),
        BinaryOperator::LessThan => lemma_emit(st, Opcode::Less, h),
        BinaryOperator::BangEqual => {
            lemma_emit(st, Opcode::Equal, h);
            lemma_emit(st.emit(Opcode::Equal), Opcode::Not, h - 1);
            lemma_join(st, st.emit(Opcode::Equal), st.emit_operator(operator), h, -1, 0);
        },
        BinaryOperator::GreaterThanEqual => {
            lemma_emit(st, Opcode::Less, h);
            lemma_emit(st.emit(Opcode::Less), Opcode::Not, h - 1);
            lemma_join(st, st.emit(Opcode::Less), st.emit_operator(operator), h, -1, 0);
        },
        BinaryOperator::LessThanEqual => {
            lemma_emit(st, Opcode::Greater, h);
            lemma_emit(st.emit(Opcode::Greater), Opcode::Not, h - 1);
            lemma_join(st, st.emit(Opcode::Greater), st.emit_operator(operator), h, -1, 0);
        },
    }
}

proof fn lemma_binary(b: BinaryExpr, st: CompilerView, env: ModuleTable, fuel: nat, h: int)
    requires
        st.wf(),
        h >= st.locals.len(),
        compile_binary(b, st, env, fuel) is Ok,
    ensures
        value_ok(st, compile_binary(b, st, env, fuel)->Ok_0, h),
    decreases fuel, b, 0nat,
{
    let s1 = compile_value(b.lhs, st, env, fuel)->Ok_0;
    lemma_value_adds_one(b.lhs, st, env, fuel, h);
    let s2 = compile_value(b.rhs, s1, env, fuel)->Ok_0;
    lemma_value_adds_one(b.rhs, s1, env, fuel, h + 1);
    lemma_join(st, s1, s2, h, 1, 1);
    lemma_operator(s2, b.operator, h + 2);
    lemma_join(st, s2, s2.emit_operator(b.operator), h, 2, -1);
}

proof fn lemma_unary(u: UnaryExpr, st: CompilerView, env: ModuleTable, fuel: nat, h: int)
    requires
        st.wf(),
        h >= st.locals.len(),
        compile_unary(u, st, env, fuel) is Ok,
    ensures
        value_ok(st, compile_unary(u, st, env, fuel)->Ok_0, h),
    decreases fuel, u, 0nat,
{
    let s1 = compile_value(u.expr, st, env, fuel)->Ok_0;
    lemma_value_adds_one(u.expr, st, env, fuel, h);
    lemma_emit(s1, unary_opcode(u.operator), h + 1);
    lemma_join(st, s1, s1.emit(unary_opcode(u.operator)), h, 1, 0);
}

proof fn lemma_var_assign(v: VarAssignExpr, st: CompilerView, env: ModuleTable, fuel: nat, h: int)
    requires
        st.wf(),
        h >= st.locals.len(),
        compile_var_assign(v, st, env, fuel) is Ok,
    ensures
        statement_ok(st, compile_var_assign(v, st, env, fuel)->Ok_0, h),
    decreases fuel, v, 0nat,
{
    let s1 = compile_value(v.initializer, st, env, fuel)->Ok_0;
    lemma_value_adds_one(v.initializer, st, env, fuel, h);
    lemma_define_variable(s1, v.variable.name@, h + 1);
    let s2 = s1.define_variable(v.variable.name@)->Ok_0;
    lemma_join(st, s1, s2, h, 1, s2.locals.len() - s1.locals.len() - 1);
}

proof fn lemma_var_set(v: VarSetExpr, st: CompilerView, env: ModuleTable, fuel: nat, h: int)
    requires
        st.wf(),
        h >= st.locals.len(),
        compile_var_set(v, st, env, fuel) is Ok,
    ensures
        value_ok(st, compile_var_set(v, st, env, fuel)->Ok_0, h),
    decreases fuel, v, 0nat,
{
    let s1 = compile_value(v.initializer, st, env, fuel)->Ok_0;
    lemma_value_adds_one(v.initializer, st, env, fuel, h);
    lemma_emit_set(s1, v.variable.name@, h + 1);
    lemma_join(st, s1, s1.emit_set(v.variable.name@)->Ok_0, h, 1, 0);
}

proof fn lemma_print(p: PrintExpr, st: CompilerView, env: ModuleTable, fuel: nat, h: int)
    requires
        st.wf(),
        h >= st.locals.len(),
        compile_print(p, st, env, fuel) is Ok,
    ensures
        statement_ok(st, compile_print(p, st, env, fuel)->Ok_0, h),
    decreases fuel, p, 0nat,
{
    let s1 = compile_value(p.expr, st, env, fuel)->Ok_0;
    lemma_value_adds_one(p.expr, st, env, fuel, h);
    lemma_emit(s1, Opcode::Print, h + 1);
    lemma_join(st, s1, s1.emit(Opcode::Print), h, 1, -1);
}

proof fn lemma_if(i: IfExpr, st: CompilerView, env: ModuleTable, fuel: nat, h: int)
    requires
        st.wf(),
        h >= st.locals.len(),
        compile_if(i, st, env, fuel) is Ok,
    ensures
        statement_ok(st, compile_if(i, st, env, fuel)->Ok_0, h),
    decreases fuel, i, 0nat,
{
    let s1 = compile_value(i.condition, st, env, fuel)->Ok_0;
    lemma_value_adds_one(i.condition, st, env, fuel, h);
    let j1 = s1.emit_jump(Opcode::JumpIfFalse).emit(Opcode::Pop);
    crate::compiler::laws::lemma_emit_jump(s1, Opcode::JumpIfFalse);
    lemma_emit(s1.emit_jump(Opcode::JumpIfFalse), Opcode::Pop, h + 1);
    let s2 = compile_scoped(i.then_clause, j1, env, fuel)->Ok_0;
    lemma_scoped(i.then_clause, j1, env, fuel, h);
    let s3 = s2.emit_jump(Opcode::Jump).patch_jump(s1.jump_slot())->Ok_0;
    crate::compiler::laws::lemma_emit_jump(s2, Opcode::Jump);
    crate::compiler::laws::lemma_patch_jump(s2.emit_jump(Opcode::Jump), s1.jump_slot());
    let s4 = s3.emit(Opcode::Pop);
    lemma_emit(s3, Opcode::Pop, h + 1);
    lemma_extends_refl(s4);
    lemma_balanced_empty(s4, s4, h);
    lemma_conditional(st, s1, s2, s3, s4, h);
}

proof fn lemma_if_else(i: IfElseExpr, st: CompilerView, env: ModuleTable, fuel: nat, h: int)
    requires
        st.wf(),
        h >= st.locals.len(),
        compile_if_else(i, st, env, fuel) is Ok,
    ensures
        statement_ok(st, compile_if_else(i, st, env, fuel)->Ok_0, h),
    decreases fuel, i, 0nat,
{
    let s1 = compile_value(i.condition, st, env, fuel)->Ok_0;
    lemma_value_adds_one(i.condition, st, env, fuel, h);
    let j1 = s1.emit_jump(Opcode::JumpIfFalse).emit(Opcode::Pop);
    crate::compiler::laws::lemma_emit_jump(s1, Opcode::JumpIfFalse);
    lemma_emit(s1.emit_jump(Opcode::JumpIfFalse), Opcode::Pop, h + 1);
    let s2 = compile_block(i.then_clause.exprs@, j1, env, fuel)->Ok_0;
    lemma_block(i.then_clause.exprs@, j1, env, fuel, h);
    let s3 = s2.emit_jump(Opcode::Jump).patch_jump(s1.jump_slot())->Ok_0;
    crate::compiler::laws::lemma_emit_jump(s2, Opcode::Jump);
    crate::compiler::laws::lemma_patch_jump(s2.emit_jump(Opcode::Jump), s1.jump_slot());
    lemma_emit(s3, Opcode::Pop, h + 1);
    let s4 = compile_block(i.else_clause.exprs@, s3.emit(Opcode::Pop), env, fuel)->Ok_0;
    lemma_block(i.else_clause.exprs@, s3.emit(Opcode::Pop), env, fuel, h);
    lemma_conditional(st, s1, s2, s3, s4, h);
}

proof fn lemma_while(w: WhileExpr, st: CompilerView, env: ModuleTable, fuel: nat, h: int)
    requires
        st.wf(),
        h >= st.locals.len(),
        compile_while(w, st, env, fuel) is Ok,
    ensures
        statement_ok(st, compile_while(w, st, env, fuel)->Ok_0, h),
    decreases fuel, w, 0nat,
{
    let s1 = compile_value(w.condition, st, env, fuel)->Ok_0;
    lemma_value_adds_one(w.condition, st, env, fuel, h);
    let j1 = s1.emit_jump(Opcode::JumpIfFalse).emit(Opcode::Pop);
    crate::compiler::laws::lemma_emit_jump(s1, Opcode::JumpIfFalse);
    lemma_emit(s1.emit_jump(Opcode::JumpIfFalse), Opcode::Pop, h + 1);
    let s2 = compile_scoped(w.body, j1, env, fuel)->Ok_0;
    lemma_scoped(w.body, j1, env, fuel, h);
    let s3 = s2.emit_loop(st.code().len() as int)->Ok_0;
    let s4 = s3.patch_jump(s1.jump_slot())->Ok_0;
    lemma_loop(st, s1, s2, s3, s4, h);
}

proof fn lemma_declaration(f: FunctionExpr, st: CompilerView, env: ModuleTable, fuel: nat, h: int)
    requires
        st.wf(),
        h >= st.locals.len(),
        compile_declaration(f, st, env, fuel) is Ok,
    ensures
        statement_ok(st, compile_declaration(f, st, env, fuel)->Ok_0, h),
    decreases fuel, f, 1nat,
{
    let function = compile_function(f, env, fuel)->Ok_0;
    lemma_function_is_balanced(f, env, fuel);
    let s1 = st.emit_indexed(Opcode::Closure, ValueView::Function(function))->Ok_0;
    lemma_emit_indexed(st, Opcode::Closure, ValueView::Function(function), h);
    lemma_define_variable(s1, f.variable.name@, h + 1);
    let s2 = s1.define_variable(f.variable.name@)->Ok_0;
    lemma_join(st, s1, s2, h, 1, s2.locals.len() - s1.locals.len() - 1);
}

proof fn lemma_class(c: ClassExpr, st: CompilerView, h: int)
    requires
        st.wf(),
        h >= st.locals.len(),
        compile_class(c, st) is Ok,
    ensures
        statement_ok(st, compile_class(c, st)->Ok_0, h),
{
    let name = c.name.name@;
    let s1 = st.add_constant(ValueView::String(name))->Ok_0;
    lemma_add_constant(st, ValueView::String(name));
    lemma_balanced_empty(st, s1, h);
    if st.depth > 0 {
        let s2 = s1.declare_local(name)->Ok_0;
        lemma_declare_local(s1, name);
        lemma_balanced_empty(s1, s2, h);
        lemma_join(st, s1, s2, h, 0, 0);
        lemma_emit_with(s2, Opcode::Class, st.next_constant(), h);
        lemma_join(st, s2, s2.emit_with(Opcode::Class, st.next_constant()), h, 0, 1);
    } else {
        let s2 = s1.emit_with(Opcode::Class, st.next_constant());
        lemma_emit_with(s1, Opcode::Class, st.next_constant(), h);
        lemma_join(st, s1, s2, h, 0, 1);
        lemma_emit_named(s2, Opcode::DefineGlobal, name, h + 1);
        lemma_join(st, s2, s2.emit_named(Opcode::DefineGlobal, name)->Ok_0, h, 1, -1);
    }
}

proof fn lemma_call(c: CallExpr, st: CompilerView, env: ModuleTable, fuel: nat, h: int)
    requires
        st.wf(),
        h >= st.locals.len(),
        compile_call(c, st, env, fuel) is Ok,
    ensures
        value_ok(st, compile_call(c, st, env, fuel)->Ok_0, h),
    decreases fuel, c, 0nat,
{
    let n = c.args@.len() as int;
    let s1 = compile_value(c.callee, st, env, fuel)->Ok_0;
    lemma_value_adds_one(c.callee, st, env, fuel, h);
    let s2 = compile_values(c.args@, 0, s1, env, fuel)->Ok_0;
    lemma_values(c.args@, 0, s1, env, fuel, h + 1);
    lemma_join(st, s1, s2, h, 1, n);
    lemma_emit_with(s2, Opcode::Call, n as u8, h + 1 + n);
    lemma_join(st, s2, s2.emit_with(Opcode::Call, n as u8), h, 1 + n, -n);
}

proof fn lemma_return(r: ReturnExpr, st: CompilerView, env: ModuleTable, fuel: nat, h: int)
    requires
        st.wf(),
        h >= st.locals.len(),
        compile_return(r, st, env, fuel) is Ok,
    ensures
        statement_ok(st, compile_return(r, st, env, fuel)->Ok_0, h),
    decreases fuel, r, 0nat,
{
    match r.expr {
        Some(e) => {
            let s1 = compile_value(e, st, env, fuel)->Ok_0;
            lemma_value_adds_one(e, st, env, fuel, h);
            lemma_emit(s1, Opcode::Return, h + 1);
            lemma_join(st, s1, s1.emit(Opcode::Return), h, 1, -1);
        },
        None => {
            lemma_implicit_return(st, h);
        },
    }
}

/// The implicit `return nil` is a balanced step.
proof fn lemma_implicit_return(st: CompilerView, h: int)
    requires
        st.wf(),
        h >= 0,
    ensures
        extends(st, st.emit_return()),
        st.emit_return().locals == st.locals,
        balanced(st, st.emit_return(), h, 0),
{
    lemma_emit(st, Opcode::Nil, h);
    lemma_emit(st.emit(Opcode::Nil), Opcode::Return, h + 1);
    lemma_join(st, st.emit(Opcode::Nil), st.emit_return(), h, 1, -1);
}

proof fn lemma_get_property(g: GetExpr, st: CompilerView, env: ModuleTable, fuel: nat, h: int)
    requires
        st.wf(),
        h >= st.locals.len(),
        compile_get_property(g, st, env, fuel) is Ok,
    ensures
        value_ok(st, compile_get_property(g, st, env, fuel)->Ok_0, h),
    decreases fuel, g, 0nat,
{
    let s1 = compile_value(g.expr, st, env, fuel)->Ok_0;
    lemma_value_adds_one(g.expr, st, env, fuel, h);
    lemma_emit_named(s1, Opcode::GetProperty, g.property@, h + 1);
    lemma_join(st, s1, s1.emit_named(Opcode::GetProperty, g.property@)->Ok_0, h, 1, 0);
}

proof fn lemma_set_property(p: SetExpr, st: CompilerView, env: ModuleTable, fuel: nat, h: int)
    requires
        st.wf(),
        h >= st.locals.len(),
        compile_set_property(p, st, env, fuel) is Ok,
    ensures
        value_ok(st, compile_set_property(p, st, env, fuel)->Ok_0, h),
    decreases fuel, p, 0nat,
{
    let s1 = compile_value(p.lhs, st, env, fuel)->Ok_0;
    lemma_value_adds_one(p.lhs, st, env, fuel, h);
    let s2 = compile_value(p.rhs, s1, env, fuel)->Ok_0;
    lemma_value_adds_one(p.rhs, s1, env, fuel, h + 1);
    lemma_join(st, s1, s2, h, 1, 1);
    lemma_emit_named(s2, Opcode::SetProperty, p.property@, h + 2);
    lemma_join(st, s2, s2.emit_named(Opcode::SetProperty, p.property@)->Ok_0, h, 2, -1);
}

proof fn lemma_array(a: ArrayExpr, st: CompilerView, env: ModuleTable, fuel: nat, h: int)
    requires
        st.wf(),
        h >= st.locals.len(),
        compile_array(a, st, env, fuel) is Ok,
    ensures
        value_ok(st, compile_array(a, st, env, fuel)->Ok_0, h),
    decreases fuel, a, 0nat,
{
    match a.exprs {
        None => {
            lemma_emit_with(st, Opcode::NewArray, 0, h);
        },
        Some(es) => {
            let n = es@.len() as int;
            let s1 = compile_values(es@, 0, st, env, fuel)->Ok_0;
            lemma_values(es@, 0, st, env, fuel, h);
            lemma_emit_with(s1, Opcode::NewArray, n as u8, h + n);
            lemma_join(st, s1, s1.emit_with(Opcode::NewArray, n as u8), h, n, 1 - n);
        },
    }
}

proof fn lemma_subscript(s: SubscriptExpr, st: CompilerView, env: ModuleTable, fuel: nat, h: int)
    requires
        st.wf(),
        h >= st.locals.len(),
        compile_subscript(s, st, env, fuel) is Ok,
    ensures
        value_ok(st, compile_subscript(s, st, env, fuel)->Ok_0, h),
    decreases fuel, s, 0nat,
{
    let s1 = compile_value(s.callee, st, env, fuel)->Ok_0;
    lemma_value_adds_one(s.callee, st, env, fuel, h);
    let s2 = compile_value(s.index, s1, env, fuel)->Ok_0;
    lemma_value_adds_one(s.index, s1, env, fuel, h + 1);
    lemma_join(st, s1, s2, h, 1, 1);
    match s.expr {
        Some(e) => {
            let s3 = compile_value(e, s2, env, fuel)->Ok_0;
            lemma_value_adds_one(e, s2, env, fuel, h + 2);
            lemma_join(st, s2, s3, h, 2, 1);
            lemma_emit(s3, Opcode::StoreSubscript, h + 3);
            lemma_join(st, s3, s3.emit(Opcode::StoreSubscript), h, 3, -2);
        },
        None => {
            lemma_emit(s2, Opcode::IndexSubscript, h + 2);
            lemma_join(st, s2, s2.emit(Opcode::IndexSubscript), h, 2, -1);
        },
    }
}

/// What declaring parameters does: each takes the next slot and counts
/// towards the arity, and no code is emitted.
pub proof fn lemma_declare_parameters(st: CompilerView, parameters: Seq<Variable>, from: int)
    requires
        st.wf(),
        0 <= from <= parameters.len(),
        st.declare_parameters(parameters, from) is Ok,
    ensures
        ({
            let s = st.declare_parameters(parameters, from)->Ok_0;
            &&& s.wf()
            &&& s.depth == st.depth
            &&& s.kind == st.kind
            &&& s.code() == st.code()
            &&& s.locals.len() == st.locals.len() + parameters.len() - from
            &&& s.function.arity == st.function.arity + parameters.len() - from
            &&& s.constants() == st.constants()
        }),
    decreases parameters.len() - from,
{
    if from < parameters.len() {
        let bumped = CompilerView {
            function: FunctionView {
                arity: (st.function.arity + 1) as u8,
                ..st.function
            },
            ..st
        };
        let name = parameters[from].name@;
        lemma_declare_local(bumped, name);
        lemma_declare_parameters(bumped.declare_local(name)->Ok_0, parameters, from + 1);
    }
}

/// Functions are balanced. The bytecode of a compiled function is well
/// typed when it is entered with the callee and one argument for each
/// parameter in its window, which is what a call provides; the function
/// declares as many parameters as its declaration lists; and the functions
/// that are declared inside it are balanced in the same way.
pub proof fn lemma_function_is_balanced(f: FunctionExpr, env: ModuleTable, fuel: nat)
    requires
        compile_function(f, env, fuel) is Ok,
    ensures
        compile_function(f, env, fuel)->Ok_0.arity == f.declaration.parameters@.len(),
        well_typed(compile_function(f, env, fuel)->Ok_0),
    decreases fuel, f, 0nat,
{
    let n = f.declaration.parameters@.len() as int;
    let start = CompilerView::fresh_function(f.variable.name@).begin_scope();
    let with_parameters = start.declare_parameters(f.declaration.parameters@, 0)->Ok_0;
    lemma_declare_parameters(start, f.declaration.parameters@, 0);
    let done = compile_block(f.declaration.body.exprs@, with_parameters, env, fuel)->Ok_0;
    lemma_block(f.declaration.body.exprs@, with_parameters, env, fuel, 1 + n);
    assert(well_typed_pool(with_parameters.constants()));
    if !ends_in_return(f.declaration.body.exprs@) {
        lemma_implicit_return(done, 1 + n);
        lemma_join(with_parameters, done, done.emit_return(), 1 + n, 0, 0);
    }
}

/// Programs are balanced. The bytecode of a compiled module is well typed
/// when it is entered with nothing but the script itself in its window,
/// which is what loading it into the machine provides; and so, each for
/// its own calls, is that of every function that the module declares.
pub proof fn lemma_program_is_balanced(es: Seq<Expr>, env: ModuleTable)
    requires
        compile_program(es, env) is Ok,
    ensures
        compile_program(es, env)->Ok_0.arity == 0,
        well_typed(compile_program(es, env)->Ok_0),
{
    let start = CompilerView::fresh(GreenFunctionType::Script);
    let done = compile_statements(es, 0, start, env, MAX_IMPORT_DEPTH as nat)->Ok_0;
    lemma_statements(es, 0, start, env, MAX_IMPORT_DEPTH as nat, 1);
    assert(well_typed_pool(start.constants()));
    let d = done.locals.len() - start.locals.len();
    lemma_implicit_return(done, 1 + d);
    lemma_join(start, done, done.emit_return(), 1, d, 0);
}

} // verus!
