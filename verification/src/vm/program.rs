//! What holds of a program from its tree to its run.

use crate::compiler::instance::CompilerView;
use crate::compiler::module_resolver::ModuleTable;
use crate::compiler::object::GreenFunctionType;
use crate::compiler::opcode::Opcode;
use crate::compiler::rules::{
    compile_node, compile_print, compile_program, compile_statement, compile_statements,
    compile_value, compile_var_assign,
};
use crate::compiler::value::{ChunkView, FunctionView, ValueView};
use crate::syntax::expr::{Expr, ExprKind, LiteralExpr};
use crate::vm::semantics::{load, run, step, ActionView, Outcome, VMView};
use vstd::prelude::*;

verus! {

/// Whether `program` is `var x = n` followed by `print(x)`, for the name
/// `x` and the number `n`.
pub open spec fn declares_and_prints(program: Seq<Expr>, x: Seq<char>, n: u64) -> bool {
    &&& program.len() == 2
    &&& *program[0].node matches ExprKind::VarAssign(a) && a.variable.name@ == x
        && *a.initializer.node == ExprKind::Literal(LiteralExpr::Number(n))
    &&& *program[1].node matches ExprKind::Print(p) && (*p.expr.node matches ExprKind::Grouping(g)
        && (*g.expr.node matches ExprKind::VarGet(v) && v.variable.name@ == x))
}

/// The function that `var x = n` followed by `print(x)` compiles to.
pub open spec fn declare_and_print(x: Seq<char>, n: u64) -> FunctionView {
    FunctionView {
        name: Seq::empty(),
        arity: 0,
        chunk: ChunkView {
            name: None,
            code: seq![
                Opcode::Constant.byte(),
                0u8,
                Opcode::DefineGlobal.byte(),
                1u8,
                Opcode::GetGlobal.byte(),
                2u8,
                Opcode::Print.byte(),
                Opcode::Nil.byte(),
                Opcode::Return.byte(),
            ],
            constants: seq![ValueView::Number(n), ValueView::String(x), ValueView::String(x)],
            lines: Seq::new(9, |i: int| 0usize),
        },
    }
}

/// What is declared is what is printed. A program that declares a variable
/// with a number and then prints the variable compiles, whatever the name
/// and the number; and the function that it compiles to, loaded into a
/// machine, asks for that number to be printed, and has by then defined the
/// global and taken from the stack what it put there.
pub proof fn lemma_declared_is_printed(
    program: Seq<Expr>,
    x: Seq<char>,
    n: u64,
    env: ModuleTable,
    vm: VMView,
    budget: nat,
)
    requires
        declares_and_prints(program, x, n),
        x.len() > 0,
        budget >= 4,
    ensures
        compile_program(program, env) == Ok::<_, crate::error::CompileError>(declare_and_print(x, n)),
        run(load(vm, declare_and_print(x, n)), budget) matches Outcome::Next(
            after,
            ActionView::Print(v),
        ) && v == ValueView::Number(n) && after.globals == vm.globals.insert(
            x,
            ValueView::Number(n),
        ) && after.stack == vm.stack.push(ValueView::Closure(declare_and_print(x, n)))
            && after.frames.len() == vm.frames.len() + 1 && after.ip() == 7,
{
    lemma_compiles(program, x, n, env);
    lemma_runs(x, n, vm, budget);
}

/// The states that the compiler goes through for the two statements.
spec fn stages(x: Seq<char>, n: u64) -> (CompilerView, CompilerView, CompilerView, CompilerView) {
    let s0 = CompilerView::fresh(GreenFunctionType::Script);
    let s1 = s0.emit_constant(ValueView::Number(n))->Ok_0;
    let s2 = s1.define_variable(x)->Ok_0;
    let s3 = s2.emit_get(x)->Ok_0;
    (s1, s2, s3, s3.emit(Opcode::Print))
}

proof fn lemma_bytes(x: Seq<char>, n: u64)
    requires
        x.len() > 0,
    ensures
        CompilerView::fresh(GreenFunctionType::Script).emit_constant(ValueView::Number(n)) is Ok,
        stages(x, n).0.define_variable(x) is Ok,
        stages(x, n).1.emit_get(x) is Ok,
        stages(x, n).3.emit_return().function == declare_and_print(x, n),
{
    let s0 = CompilerView::fresh(GreenFunctionType::Script);
    let (s1, s2, s3, s4) = stages(x, n);
    assert(s0.emit_constant(ValueView::Number(n)) is Ok);
    assert(s1.code() =~= seq![Opcode::Constant.byte(), 0u8]);
    assert(s1.constants() =~= seq![ValueView::Number(n)]);
    assert(s1.depth == 0 && s1.locals == s0.locals);
    assert(s1.define_variable(x) is Ok);
    assert(s2.code() =~= seq![Opcode::Constant.byte(), 0u8, Opcode::DefineGlobal.byte(), 1u8]);
    assert(s2.constants() =~= seq![ValueView::Number(n), ValueView::String(x)]);
    assert(s2.locals == s0.locals);
    assert(s2.find_local(x, 1) == None::<int>) by {
        reveal_with_fuel(CompilerView::find_local, 3);
        assert(s2.locals[0].name.len() == 0);
    }
    assert(s2.emit_get(x) is Ok);
    assert(s3.code() =~= seq![
        Opcode::Constant.byte(),
        0u8,
        Opcode::DefineGlobal.byte(),
        1u8,
        Opcode::GetGlobal.byte(),
        2u8,
    ]);
    assert(s3.constants() =~= seq![
        ValueView::Number(n),
        ValueView::String(x),
        ValueView::String(x),
    ]);
    let f = s4.emit_return().function;
    let want = declare_and_print(x, n);
    assert(f.chunk.code =~= want.chunk.code);
    assert(f.chunk.constants =~= want.chunk.constants);
    assert(f.chunk.lines.len() == 9);
    assert(s1.function.chunk.lines =~= seq![0usize, 0usize]);
    assert(s2.function.chunk.lines =~= seq![0usize, 0usize, 0usize, 0usize]);
    assert(s3.function.chunk.lines =~= seq![0usize, 0usize, 0usize, 0usize, 0usize, 0usize]);
    assert(f.chunk.lines =~= want.chunk.lines);
    assert(f.chunk.name == want.chunk.name);
    assert(f.name == want.name);
    assert(f.arity == want.arity);
}

proof fn lemma_compiles(program: Seq<Expr>, x: Seq<char>, n: u64, env: ModuleTable)
    requires
        declares_and_prints(program, x, n),
        x.len() > 0,
    ensures
        compile_program(program, env) == Ok::<_, crate::error::CompileError>(declare_and_print(x, n)),
{
    lemma_bytes(x, n);
    let fuel = crate::compiler::rules::MAX_IMPORT_DEPTH as nat;
    let s0 = CompilerView::fresh(GreenFunctionType::Script);
    let (s1, s2, s3, s4) = stages(x, n);
    let a = program[0].node->VarAssign_0;
    let p = program[1].node->Print_0;
    let g = p.expr.node->Grouping_0;
    assert(compile_node(*a.initializer.node, s0, env, fuel) == Ok::<_, crate::error::CompileError>(s1));
    assert(compile_value(a.initializer, s0, env, fuel) == Ok::<_, crate::error::CompileError>(s1));
    assert(compile_var_assign(a, s0, env, fuel) == Ok::<_, crate::error::CompileError>(s2));
    assert(compile_node(*program[0].node, s0, env, fuel) == Ok::<_, crate::error::CompileError>(s2));
    assert(compile_statement(program[0], s0, env, fuel) == Ok::<_, crate::error::CompileError>(s2));
    assert(compile_node(*g.expr.node, s2, env, fuel) == Ok::<_, crate::error::CompileError>(s3));
    assert(compile_value(g.expr, s2, env, fuel) == Ok::<_, crate::error::CompileError>(s3));
    assert(compile_node(*p.expr.node, s2, env, fuel) == Ok::<_, crate::error::CompileError>(s3));
    assert(compile_value(p.expr, s2, env, fuel) == Ok::<_, crate::error::CompileError>(s3));
    assert(compile_print(p, s2, env, fuel) == Ok::<_, crate::error::CompileError>(s4));
    assert(compile_node(*program[1].node, s2, env, fuel) == Ok::<_, crate::error::CompileError>(s4));
    assert(compile_statement(program[1], s2, env, fuel) == Ok::<_, crate::error::CompileError>(s4));
    assert(compile_statements(program, 2, s4, env, fuel) == Ok::<_, crate::error::CompileError>(s4));
    assert(compile_statements(program, 1, s2, env, fuel) == Ok::<_, crate::error::CompileError>(s4));
    assert(compile_statements(program, 0, s0, env, fuel) == Ok::<_, crate::error::CompileError>(s4));
}

proof fn lemma_runs(x: Seq<char>, n: u64, vm: VMView, budget: nat)
    requires
        budget >= 4,
    ensures
        run(load(vm, declare_and_print(x, n)), budget) matches Outcome::Next(
            after,
            ActionView::Print(v),
        ) && v == ValueView::Number(n) && after.globals == vm.globals.insert(
            x,
            ValueView::Number(n),
        ) && after.stack == vm.stack.push(ValueView::Closure(declare_and_print(x, n)))
            && after.frames.len() == vm.frames.len() + 1 && after.ip() == 7,
{
    let f = declare_and_print(x, n);
    let number = ValueView::Number(n);
    let v0 = load(vm, f);
    assert(v0.code() == f.chunk.code);
    assert(v0.fetch() == Some(Opcode::Constant));
    let v1 = v0.push(number).past(Opcode::Constant);
    assert(step(v0) == Outcome::Next(v1, ActionView::Continue));
    assert(v1.ip() == 2 && v1.code() == f.chunk.code && v1.constants() == f.chunk.constants);
    assert(v1.fetch() == Some(Opcode::DefineGlobal));
    let v2 = (VMView { globals: v1.globals.insert(x, number), ..v1 }).drop(1).past(
        Opcode::DefineGlobal,
    );
    assert(step(v1) == Outcome::Next(v2, ActionView::Continue));
    assert(v2.ip() == 4 && v2.code() == f.chunk.code && v2.constants() == f.chunk.constants);
    assert(v2.stack =~= v0.stack);
    assert(v2.fetch() == Some(Opcode::GetGlobal));
    let v3 = v2.push(number).past(Opcode::GetGlobal);
    assert(step(v2) == Outcome::Next(v3, ActionView::Continue));
    assert(v3.ip() == 6 && v3.code() == f.chunk.code);
    assert(v3.fetch() == Some(Opcode::Print));
    let v4 = v3.drop(1).past(Opcode::Print);
    assert(step(v3) == Outcome::Next(v4, ActionView::Print(number)));
    assert(v4.stack =~= v0.stack);
    assert(run(v3, (budget - 3) as nat) == step(v3)) by {
        reveal_with_fuel(run, 2);
    }
    assert(run(v0, budget) == run(v3, (budget - 3) as nat)) by {
        reveal_with_fuel(run, 4);
    }
}

} // verus!
