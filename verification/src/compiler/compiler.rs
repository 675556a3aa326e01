use crate::compiler::balance::{lemma_block, lemma_program_is_balanced, lemma_scoped};
use crate::compiler::chunk::Chunk;
use crate::compiler::instance::{CompilerInstance, CompilerView, MAX_LOCALS, MAX_SCOPE_DEPTH};
use crate::compiler::local::{Local, LocalView};
use crate::compiler::module_resolver::{get_module_ast, ModuleTable};
use crate::compiler::object::{GreenFunction, GreenFunctionType};
use crate::compiler::opcode::Opcode;
use crate::compiler::rules::{
    compile_array, compile_binary, compile_block, compile_call, compile_class,
    compile_declaration, compile_function, compile_get_property, compile_if, compile_if_else,
    compile_literal, compile_node, compile_print, compile_program, compile_return,
    compile_scoped, compile_set_property, compile_statement, compile_statements,
    compile_subscript, compile_unary, compile_value, compile_values, compile_var_assign,
    compile_var_set, compile_while, fails_at_once, Emitted, MAX_IMPORT_DEPTH, MAX_JUMP,
    MAX_OPERAND, steady, UNKNOWN_LINE,
};
use crate::compiler::typing::well_typed;
use crate::compiler::value::{Value, ValueView};
use crate::error::CompileError;
use crate::syntax::expr::{
    ArrayExpr, BinaryExpr, BinaryOperator, CallExpr, ClassExpr, Expr, ExprKind, FunctionExpr,
    GetExpr, IfElseExpr, IfExpr, ImportExpr, LiteralExpr, PrintExpr, ReturnExpr, SetExpr,
    SubscriptExpr, UnaryExpr, UnaryOperator, VarAssignExpr, Variable, VarSetExpr, WhileExpr,
};
use crate::syntax::parser::ModuleAst;
use std::rc::Rc;
use vstd::prelude::*;

verus! {

/// Compiles a syntax tree to bytecode, one function at a time.
pub struct Compiler {
    pub current: CompilerInstance,
}

impl View for Compiler {
    type V = CompilerView;

    open spec fn view(&self) -> CompilerView {
        self.current@
    }
}

/// Whether a step ended as the rules say: with the state that they give, or
/// with the error that they give.
pub open spec fn agrees(rule: Emitted, r: Result<(), CompileError>, after: CompilerView) -> bool {
    match r {
        Ok(()) => rule == Ok::<CompilerView, CompileError>(after),
        Err(e) => rule == Err::<CompilerView, CompileError>(e),
    }
}

impl CompilerView {
    /// After a local `name` was added that is not yet initialized.
    pub open spec fn add_local(self, name: Seq<char>) -> Emitted {
        if self.locals.len() >= MAX_LOCALS {
            Err(CompileError::TooManyLocals)
        } else {
            Ok(CompilerView { locals: self.locals.push(LocalView { name, depth: -1 }), ..self })
        }
    }

    /// After the local declared last was marked initialized. Nothing
    /// changes at the top level, where variables are global, nor where slot
    /// 0 is the only local.
    pub open spec fn mark_initialized(self) -> CompilerView {
        if self.depth == 0 || self.locals.len() <= 1 {
            self
        } else {
            CompilerView {
                locals: self.locals.update(
                    self.locals.len() - 1,
                    LocalView { depth: self.depth, ..self.locals.last() },
                ),
                ..self
            }
        }
    }

    /// After `name` was declared where it is a local: inside a scope.
    pub open spec fn declare_var(self, name: Seq<char>) -> Emitted {
        if self.depth == 0 {
            Ok(self)
        } else {
            self.declare_local(name)
        }
    }

    /// After `name` was defined: marked initialized inside a scope, made a
    /// global at the top level.
    pub open spec fn define_var(self, name: Seq<char>) -> Emitted {
        if self.depth > 0 {
            Ok(self.mark_initialized())
        } else {
            self.emit_named(Opcode::DefineGlobal, name)
        }
    }
}

impl Compiler {
    /// A compiler at the start of the top-level script.
    pub fn new() -> (c: Compiler)
        ensures
            c@ == CompilerView::fresh(GreenFunctionType::Script),
            c@.wf(),
    {
        Compiler { current: CompilerInstance::new(GreenFunctionType::Script) }
    }

    /// Compiles a module to the function that runs it. The result is what
    /// `compile_program` gives, and so is the error if there is one. The
    /// function takes no arguments, and its code, like that of every
    /// function declared in the module, keeps the stack in balance.
    pub fn compile_module(module: ModuleAst, modules: &ModuleTable) -> (r: Result<
        GreenFunction,
        CompileError,
    >)
        requires
            modules.wf(),
        ensures
            match r {
                Ok(f) => compile_program(module.exprs@, *modules) == Ok::<_, CompileError>(f@),
                Err(e) => compile_program(module.exprs@, *modules) == Err::<
                    crate::compiler::value::FunctionView,
                    _,
                >(e),
            },
            r matches Ok(f) ==> f@.arity == 0 && well_typed(f@),
    {
        let mut compiler = Compiler::new();
        match compiler.compile_statements(&module.exprs, modules, MAX_IMPORT_DEPTH) {
            Ok(()) => {
                proof {
                    lemma_program_is_balanced(module.exprs@, *modules);
                }
                Ok(compiler.end_compiler())
            },
            Err(e) => Err(e),
        }
    }

    /// Compiles one statement into the current function.
    pub fn compile_expr(&mut self, expr: &Expr, modules: &ModuleTable, fuel: usize) -> (r: Result<
        (),
        CompileError,
    >)
        requires
            old(self)@.wf(),
            modules.wf(),
        ensures
            agrees(compile_statement(*expr, old(self)@, *modules, fuel as nat), r, final(self)@),
            r is Ok ==> steady(old(self)@, final(self)@),
            fails_at_once(*expr.node, old(self)@, *modules, fuel as nat) ==> final(self)@
                == old(self)@,
        decreases fuel, *expr, 1nat,
    {
        match self.compile_node(&*expr.node, modules, fuel) {
            Ok(()) => {
                if expr.node.is_value() {
                    self.emit(Opcode::Pop);
                }
                Ok(())
            },
            Err(e) => Err(e),
        }
    }

    /// Compiles an expression whose value is needed.
    pub fn compile_value(&mut self, expr: &Expr, modules: &ModuleTable, fuel: usize) -> (r: Result<
        (),
        CompileError,
    >)
        requires
            old(self)@.wf(),
            modules.wf(),
        ensures
            agrees(compile_value(*expr, old(self)@, *modules, fuel as nat), r, final(self)@),
            r is Ok ==> steady(old(self)@, final(self)@),
            !expr.node.yields_value() || fails_at_once(
                *expr.node,
                old(self)@,
                *modules,
                fuel as nat,
            ) ==> final(self)@ == old(self)@,
        decreases fuel, *expr, 1nat,
    {
        if expr.node.is_value() {
            self.compile_node(&*expr.node, modules, fuel)
        } else {
            Err(CompileError::ExpectedExpression)
        }
    }

    /// Compiles statements one after the other.
    pub fn compile_statements(
        &mut self,
        exprs: &Vec<Expr>,
        modules: &ModuleTable,
        fuel: usize,
    ) -> (r: Result<(), CompileError>)
        requires
            old(self)@.wf(),
            modules.wf(),
        ensures
            agrees(compile_statements(exprs@, 0, old(self)@, *modules, fuel as nat), r, final(self)@),
            r is Ok ==> steady(old(self)@, final(self)@),
        decreases fuel, exprs@, exprs@.len(),
    {
        let mut i: usize = 0;
        while i < exprs.len()
            invariant
                i <= exprs.len(),
                steady(old(self)@, self@),
                modules.wf(),
                compile_statements(exprs@, 0, old(self)@, *modules, fuel as nat)
                    == compile_statements(exprs@, i as int, self@, *modules, fuel as nat),
            decreases exprs.len() - i,
        {
            match self.compile_expr(&exprs[i], modules, fuel) {
                Ok(()) => {},
                Err(e) => {
                    return Err(e);
                },
            }
            i += 1;
        }
        Ok(())
    }

    /// Compiles expressions one after the other, each for its value.
    pub fn compile_values(
        &mut self,
        exprs: &Vec<Expr>,
        modules: &ModuleTable,
        fuel: usize,
    ) -> (r: Result<(), CompileError>)
        requires
            old(self)@.wf(),
            modules.wf(),
        ensures
            agrees(compile_values(exprs@, 0, old(self)@, *modules, fuel as nat), r, final(self)@),
            r is Ok ==> steady(old(self)@, final(self)@),
        decreases fuel, exprs@, exprs@.len(),
    {
        let mut i: usize = 0;
        while i < exprs.len()
            invariant
                i <= exprs.len(),
                steady(old(self)@, self@),
                modules.wf(),
                compile_values(exprs@, 0, old(self)@, *modules, fuel as nat) == compile_values(
                    exprs@,
                    i as int,
                    self@,
                    *modules,
                    fuel as nat,
                ),
            decreases exprs.len() - i,
        {
            match self.compile_value(&exprs[i], modules, fuel) {
                Ok(()) => {},
                Err(e) => {
                    return Err(e);
                },
            }
            i += 1;
        }
        Ok(())
    }

    /// Compiles statements in a scope of their own. No local outlives the
    /// scope: the locals are the same after the block as before it.
    pub fn compile_block(&mut self, exprs: &Vec<Expr>, modules: &ModuleTable, fuel: usize) -> (r:
        Result<(), CompileError>)
        requires
            old(self)@.wf(),
            modules.wf(),
        ensures
            agrees(compile_block(exprs@, old(self)@, *modules, fuel as nat), r, final(self)@),
            r is Ok ==> steady(old(self)@, final(self)@),
            r is Ok ==> final(self)@.locals == old(self)@.locals,
            old(self)@.depth >= MAX_SCOPE_DEPTH ==> final(self)@ == old(self)@,
        decreases fuel, exprs@, exprs@.len() + 1,
    {
        proof {
            if compile_block(exprs@, self@, *modules, fuel as nat) is Ok {
                lemma_block(exprs@, self@, *modules, fuel as nat, self@.locals.len() as int);
            }
        }
        if self.current.scope_depth >= MAX_SCOPE_DEPTH {
            return Err(CompileError::TooManyScopes);
        }
        self.begin_scope();
        match self.compile_statements(exprs, modules, fuel) {
            Ok(()) => {
                self.end_scope();
                Ok(())
            },
            Err(e) => Err(e),
        }
    }

    /// Compiles one statement in a scope of its own.
    pub fn compile_scoped(&mut self, expr: &Expr, modules: &ModuleTable, fuel: usize) -> (r: Result<
        (),
        CompileError,
    >)
        requires
            old(self)@.wf(),
            modules.wf(),
        ensures
            agrees(compile_scoped(*expr, old(self)@, *modules, fuel as nat), r, final(self)@),
            r is Ok ==> steady(old(self)@, final(self)@),
            r is Ok ==> final(self)@.locals == old(self)@.locals,
            old(self)@.depth >= MAX_SCOPE_DEPTH ==> final(self)@ == old(self)@,
        decreases fuel, *expr, 2nat,
    {
        proof {
            if compile_scoped(*expr, self@, *modules, fuel as nat) is Ok {
                lemma_scoped(*expr, self@, *modules, fuel as nat, self@.locals.len() as int);
            }
        }
        if self.current.scope_depth >= MAX_SCOPE_DEPTH {
            return Err(CompileError::TooManyScopes);
        }
        self.begin_scope();
        match self.compile_expr(expr, modules, fuel) {
            Ok(()) => {
                self.end_scope();
                Ok(())
            },
            Err(e) => Err(e),
        }
    }

    /// Compiles a function declaration to the function object.
    pub fn compile_function(f: &FunctionExpr, modules: &ModuleTable, fuel: usize) -> (r: Result<
        GreenFunction,
        CompileError,
    >)
        requires
            modules.wf(),
        ensures
            match r {
                Ok(g) => compile_function(*f, *modules, fuel as nat) == Ok::<_, CompileError>(g@),
                Err(e) => compile_function(*f, *modules, fuel as nat) == Err::<
                    crate::compiler::value::FunctionView,
                    _,
                >(e),
            },
        decreases fuel, *f, 0nat,
    {
        let mut inner = Compiler { current: CompilerInstance::new(GreenFunctionType::Function) };
        inner.current.function.name = f.variable.name.clone();
        inner.current.function.chunk.name = Some(f.variable.name.clone());
        inner.begin_scope();
        assert(inner@ == CompilerView::fresh_function(f.variable.name@).begin_scope());
        let parameters = &f.declaration.parameters;
        let ghost start = inner@;
        let mut i: usize = 0;
        while i < parameters.len()
            invariant
                i <= parameters.len(),
                inner@.wf(),
                inner@.depth == 1,
                *parameters == f.declaration.parameters,
                start == CompilerView::fresh_function(f.variable.name@).begin_scope(),
                start.declare_parameters(parameters@, 0) == inner@.declare_parameters(
                    parameters@,
                    i as int,
                ),
            decreases parameters.len() - i,
        {
            if inner.current.function.arity >= 255 {
                return Err(CompileError::TooManyParameters);
            }
            inner.current.function.arity += 1;
            match inner.compile_declare_var(&parameters[i]) {
                Ok(()) => {},
                Err(e) => {
                    return Err(e);
                },
            }
            i += 1;
        }
        match inner.compile_block(&f.declaration.body.exprs, modules, fuel) {
            Ok(()) => {},
            Err(e) => {
                return Err(e);
            },
        }
        let body = &f.declaration.body.exprs;
        let closed = body.len() > 0 && match &*body[body.len() - 1].node {
            ExprKind::Return(_) => true,
            _ => false,
        };
        if closed {
            Ok(inner.current.function)
        } else {
            Ok(inner.end_compiler())
        }
    }

    /// Compiles one node by the rule of its kind.
    pub fn compile_node(&mut self, node: &ExprKind, modules: &ModuleTable, fuel: usize) -> (r:
        Result<(), CompileError>)
        requires
            old(self)@.wf(),
            modules.wf(),
        ensures
            agrees(compile_node(*node, old(self)@, *modules, fuel as nat), r, final(self)@),
            r is Ok ==> steady(old(self)@, final(self)@),
            fails_at_once(*node, old(self)@, *modules, fuel as nat) ==> final(self)@
                == old(self)@,
        decreases fuel, *node, 2nat,
    {
        match node {
            ExprKind::Sequence(s) => self.compile_statements(&s.exprs, modules, fuel),
            ExprKind::Import(i) => {
                if fuel == 0 {
                    return Err(CompileError::ImportTooDeep);
                }
                proof {
                    modules.lemma_find_from(i.module@, 0);
                }
                match get_module_ast(modules, &i.module) {
                    Ok(module) => self.compile_statements(&module.exprs, modules, fuel - 1),
                    Err(_) => Err(CompileError::UnresolvedImport),
                }
            },
            ExprKind::Literal(l) => self.compile_literal(l),
            ExprKind::Binary(b) => self.compile_binary(b, modules, fuel),
            ExprKind::Unary(u) => self.compile_unary(u, modules, fuel),
            ExprKind::Block(b) => self.compile_block(&b.exprs, modules, fuel),
            ExprKind::VarAssign(v) => self.compile_var_assign(v, modules, fuel),
            ExprKind::VarSet(v) => self.compile_var_set(v, modules, fuel),
            ExprKind::VarGet(v) => self.emit_variable(
                Opcode::GetLocal,
                Opcode::GetGlobal,
                &v.variable.name,
            ),
            ExprKind::Print(p) => self.compile_print(p, modules, fuel),
            ExprKind::Grouping(g) => self.compile_value(&g.expr, modules, fuel),
            ExprKind::If(i) => self.compile_if(i, modules, fuel),
            ExprKind::IfElse(i) => self.compile_if_else(i, modules, fuel),
            ExprKind::Function(f) => self.compile_declaration(f, modules, fuel),
            ExprKind::Class(c) => self.compile_class(c),
            ExprKind::Call(c) => self.compile_call(c, modules, fuel),
            ExprKind::While(w) => self.compile_while(w, modules, fuel),
            ExprKind::Return(r0) => self.compile_return(r0, modules, fuel),
            ExprKind::GetProperty(g) => self.compile_get_property(g, modules, fuel),
            ExprKind::SetProperty(p) => self.compile_set_property(p, modules, fuel),
            ExprKind::Array(a) => self.compile_array(a, modules, fuel),
            ExprKind::Subscript(s0) => self.compile_subscript(s0, modules, fuel),
        }
    }

    /// Compiles a binary operation: both operands, then the operator.
    pub fn compile_binary(&mut self, b: &BinaryExpr, modules: &ModuleTable, fuel: usize) -> (r: Result<
        (),
        CompileError,
    >)
        requires
            old(self)@.wf(),
            modules.wf(),
        ensures
            agrees(
                compile_binary(*b, old(self)@, *modules, fuel as nat),
                r,
                final(self)@,
            ),
            r is Ok ==> steady(old(self)@, final(self)@),
        decreases fuel, *b, 0nat,
    {
        match self.compile_value(&b.lhs, modules, fuel) {
            Ok(()) => {},
            Err(e) => {
                return Err(e);
            },
        }
        match self.compile_value(&b.rhs, modules, fuel) {
            Ok(()) => {},
            Err(e) => {
                return Err(e);
            },
        }
        self.emit_operator(b.operator);
        Ok(())
    }

    /// Compiles a unary operation: the operand, then the operator.
    pub fn compile_unary(&mut self, u: &UnaryExpr, modules: &ModuleTable, fuel: usize) -> (r: Result<
        (),
        CompileError,
    >)
        requires
            old(self)@.wf(),
            modules.wf(),
        ensures
            agrees(
                compile_unary(*u, old(self)@, *modules, fuel as nat),
                r,
                final(self)@,
            ),
            r is Ok ==> steady(old(self)@, final(self)@),
        decreases fuel, *u, 0nat,
    {
        match self.compile_value(&u.expr, modules, fuel) {
            Ok(()) => {},
            Err(e) => {
                return Err(e);
            },
        }
        match u.operator {
            UnaryOperator::Negate => self.emit(Opcode::Negate),
            UnaryOperator::Not => self.emit(Opcode::Not),
        }
        Ok(())
    }

    /// Compiles `var x = e`: the initializer, then the definition.
    pub fn compile_var_assign(&mut self, v: &VarAssignExpr, modules: &ModuleTable, fuel: usize) -> (r: Result<
        (),
        CompileError,
    >)
        requires
            old(self)@.wf(),
            modules.wf(),
        ensures
            agrees(
                compile_var_assign(*v, old(self)@, *modules, fuel as nat),
                r,
                final(self)@,
            ),
            r is Ok ==> steady(old(self)@, final(self)@),
        decreases fuel, *v, 0nat,
    {
        match self.compile_value(&v.initializer, modules, fuel) {
            Ok(()) => {},
            Err(e) => {
                return Err(e);
            },
        }
        self.define_variable(&v.variable)
    }

    /// Compiles `x = e`: the value, then the store.
    pub fn compile_var_set(&mut self, v: &VarSetExpr, modules: &ModuleTable, fuel: usize) -> (r: Result<
        (),
        CompileError,
    >)
        requires
            old(self)@.wf(),
            modules.wf(),
        ensures
            agrees(
                compile_var_set(*v, old(self)@, *modules, fuel as nat),
                r,
                final(self)@,
            ),
            r is Ok ==> steady(old(self)@, final(self)@),
        decreases fuel, *v, 0nat,
    {
        match self.compile_value(&v.initializer, modules, fuel) {
            Ok(()) => {},
            Err(e) => {
                return Err(e);
            },
        }
        self.emit_variable(Opcode::SetLocal, Opcode::SetGlobal, &v.variable.name)
    }

    /// Compiles `print e`.
    pub fn compile_print(&mut self, p: &PrintExpr, modules: &ModuleTable, fuel: usize) -> (r: Result<
        (),
        CompileError,
    >)
        requires
            old(self)@.wf(),
            modules.wf(),
        ensures
            agrees(
                compile_print(*p, old(self)@, *modules, fuel as nat),
                r,
                final(self)@,
            ),
            r is Ok ==> steady(old(self)@, final(self)@),
        decreases fuel, *p, 0nat,
    {
        match self.compile_value(&p.expr, modules, fuel) {
            Ok(()) => {},
            Err(e) => {
                return Err(e);
            },
        }
        self.emit(Opcode::Print);
        Ok(())
    }

    /// Compiles a conditional without `else`.
    pub fn compile_if(&mut self, i: &IfExpr, modules: &ModuleTable, fuel: usize) -> (r: Result<
        (),
        CompileError,
    >)
        requires
            old(self)@.wf(),
            modules.wf(),
        ensures
            agrees(
                compile_if(*i, old(self)@, *modules, fuel as nat),
                r,
                final(self)@,
            ),
            r is Ok ==> steady(old(self)@, final(self)@),
        decreases fuel, *i, 0nat,
    {
        match self.compile_value(&i.condition, modules, fuel) {
            Ok(()) => {},
            Err(e) => {
                return Err(e);
            },
        }
        let then_jump = self.emit_jump(Opcode::JumpIfFalse);
        self.emit(Opcode::Pop);
        match self.compile_scoped(&i.then_clause, modules, fuel) {
            Ok(()) => {},
            Err(e) => {
                return Err(e);
            },
        }
        let else_jump = self.emit_jump(Opcode::Jump);
        match self.patch_jump(then_jump) {
            Ok(()) => {},
            Err(e) => {
                return Err(e);
            },
        }
        self.emit(Opcode::Pop);
        self.patch_jump(else_jump)
    }

    /// Compiles a conditional with `else`.
    pub fn compile_if_else(&mut self, i: &IfElseExpr, modules: &ModuleTable, fuel: usize) -> (r: Result<
        (),
        CompileError,
    >)
        requires
            old(self)@.wf(),
            modules.wf(),
        ensures
            agrees(
                compile_if_else(*i, old(self)@, *modules, fuel as nat),
                r,
                final(self)@,
            ),
            r is Ok ==> steady(old(self)@, final(self)@),
        decreases fuel, *i, 0nat,
    {
        match self.compile_value(&i.condition, modules, fuel) {
            Ok(()) => {},
            Err(e) => {
                return Err(e);
            },
        }
        let then_jump = self.emit_jump(Opcode::JumpIfFalse);
        self.emit(Opcode::Pop);
        match self.compile_block(&i.then_clause.exprs, modules, fuel) {
            Ok(()) => {},
            Err(e) => {
                return Err(e);
            },
        }
        let else_jump = self.emit_jump(Opcode::Jump);
        match self.patch_jump(then_jump) {
            Ok(()) => {},
            Err(e) => {
                return Err(e);
            },
        }
        self.emit(Opcode::Pop);
        match self.compile_block(&i.else_clause.exprs, modules, fuel) {
            Ok(()) => {},
            Err(e) => {
                return Err(e);
            },
        }
        self.patch_jump(else_jump)
    }

    /// Compiles a function declaration: the function becomes a constant, a
    /// closure over it is made at run time and defined as a variable.
    pub fn compile_declaration(&mut self, f: &FunctionExpr, modules: &ModuleTable, fuel: usize) -> (r: Result<
        (),
        CompileError,
    >)
        requires
            old(self)@.wf(),
            modules.wf(),
        ensures
            agrees(
                compile_declaration(*f, old(self)@, *modules, fuel as nat),
                r,
                final(self)@,
            ),
            r is Ok ==> steady(old(self)@, final(self)@),
        decreases fuel, *f, 1nat,
    {
        let function = match Compiler::compile_function(f, modules, fuel) {
            Ok(function) => function,
            Err(e) => {
                return Err(e);
            },
        };
        self.emit(Opcode::Closure);
        let index = match self.add_constant(Value::Function(Rc::new(function))) {
            Ok(index) => index,
            Err(e) => {
                return Err(e);
            },
        };
        self.emit_byte(index);
        self.define_variable(&f.variable)
    }

    /// Compiles a call: the callee, the arguments left to right, then `Call`.
    pub fn compile_call(&mut self, c: &CallExpr, modules: &ModuleTable, fuel: usize) -> (r: Result<
        (),
        CompileError,
    >)
        requires
            old(self)@.wf(),
            modules.wf(),
        ensures
            agrees(
                compile_call(*c, old(self)@, *modules, fuel as nat),
                r,
                final(self)@,
            ),
            r is Ok ==> steady(old(self)@, final(self)@),
            c.args@.len() > MAX_OPERAND ==> final(self)@ == old(self)@,
        decreases fuel, *c, 0nat,
    {
        let arity = c.args.len();
        if arity > MAX_OPERAND {
            return Err(CompileError::TooManyArguments);
        }
        match self.compile_value(&c.callee, modules, fuel) {
            Ok(()) => {},
            Err(e) => {
                return Err(e);
            },
        }
        match self.compile_values(&c.args, modules, fuel) {
            Ok(()) => {},
            Err(e) => {
                return Err(e);
            },
        }
        self.emit(Opcode::Call);
        self.emit_byte(arity as u8);
        Ok(())
    }

    /// Compiles a loop: the condition, the exit jump, the body, the jump back.
    pub fn compile_while(&mut self, w: &WhileExpr, modules: &ModuleTable, fuel: usize) -> (r: Result<
        (),
        CompileError,
    >)
        requires
            old(self)@.wf(),
            modules.wf(),
        ensures
            agrees(
                compile_while(*w, old(self)@, *modules, fuel as nat),
                r,
                final(self)@,
            ),
            r is Ok ==> steady(old(self)@, final(self)@),
        decreases fuel, *w, 0nat,
    {
        let loop_start = self.current.function.chunk.code.len();
        match self.compile_value(&w.condition, modules, fuel) {
            Ok(()) => {},
            Err(e) => {
                return Err(e);
            },
        }
        let exit_jump = self.emit_jump(Opcode::JumpIfFalse);
        self.emit(Opcode::Pop);
        match self.compile_scoped(&w.body, modules, fuel) {
            Ok(()) => {},
            Err(e) => {
                return Err(e);
            },
        }
        match self.emit_loop(loop_start) {
            Ok(()) => {},
            Err(e) => {
                return Err(e);
            },
        }
        match self.patch_jump(exit_jump) {
            Ok(()) => {},
            Err(e) => {
                return Err(e);
            },
        }
        self.emit(Opcode::Pop);
        Ok(())
    }

    /// Compiles `return`, which only a function may hold.
    pub fn compile_return(&mut self, r0: &ReturnExpr, modules: &ModuleTable, fuel: usize) -> (r: Result<
        (),
        CompileError,
    >)
        requires
            old(self)@.wf(),
            modules.wf(),
        ensures
            agrees(
                compile_return(*r0, old(self)@, *modules, fuel as nat),
                r,
                final(self)@,
            ),
            r is Ok ==> steady(old(self)@, final(self)@),
            old(self)@.kind == GreenFunctionType::Script ==> final(self)@ == old(self)@,
        decreases fuel, *r0, 0nat,
    {
        if self.current.function_type == GreenFunctionType::Script {
            return Err(CompileError::ReturnOutsideFunction);
        }
        match &r0.expr {
            Some(e) => {
                match self.compile_value(e, modules, fuel) {
                    Ok(()) => {},
                    Err(e) => {
                        return Err(e);
                    },
                }
                self.emit(Opcode::Return);
                Ok(())
            },
            None => {
                self.emit_return();
                Ok(())
            },
        }
    }

    /// Compiles `e.property`.
    pub fn compile_get_property(&mut self, g: &GetExpr, modules: &ModuleTable, fuel: usize) -> (r: Result<
        (),
        CompileError,
    >)
        requires
            old(self)@.wf(),
            modules.wf(),
        ensures
            agrees(
                compile_get_property(*g, old(self)@, *modules, fuel as nat),
                r,
                final(self)@,
            ),
            r is Ok ==> steady(old(self)@, final(self)@),
        decreases fuel, *g, 0nat,
    {
        match self.compile_value(&g.expr, modules, fuel) {
            Ok(()) => {},
            Err(e) => {
                return Err(e);
            },
        }
        self.emit_named(Opcode::GetProperty, &g.property)
    }

    /// Compiles `lhs.property = rhs`.
    pub fn compile_set_property(&mut self, p: &SetExpr, modules: &ModuleTable, fuel: usize) -> (r: Result<
        (),
        CompileError,
    >)
        requires
            old(self)@.wf(),
            modules.wf(),
        ensures
            agrees(
                compile_set_property(*p, old(self)@, *modules, fuel as nat),
                r,
                final(self)@,
            ),
            r is Ok ==> steady(old(self)@, final(self)@),
        decreases fuel, *p, 0nat,
    {
        match self.compile_value(&p.lhs, modules, fuel) {
            Ok(()) => {},
            Err(e) => {
                return Err(e);
            },
        }
        match self.compile_value(&p.rhs, modules, fuel) {
            Ok(()) => {},
            Err(e) => {
                return Err(e);
            },
        }
        self.emit_named(Opcode::SetProperty, &p.property)
    }

    /// Compiles an array literal: the elements, then `NewArray`.
    pub fn compile_array(&mut self, a: &ArrayExpr, modules: &ModuleTable, fuel: usize) -> (r: Result<
        (),
        CompileError,
    >)
        requires
            old(self)@.wf(),
            modules.wf(),
        ensures
            agrees(
                compile_array(*a, old(self)@, *modules, fuel as nat),
                r,
                final(self)@,
            ),
            r is Ok ==> steady(old(self)@, final(self)@),
            a.exprs matches Some(es) && es@.len() > MAX_OPERAND ==> final(self)@
                == old(self)@,
        decreases fuel, *a, 0nat,
    {
        match &a.exprs {
            None => {
                self.emit(Opcode::NewArray);
                self.emit_byte(0);
                Ok(())
            },
            Some(es) => {
                let count = es.len();
                if count > MAX_OPERAND {
                    return Err(CompileError::TooManyElements);
                }
                match self.compile_values(es, modules, fuel) {
                    Ok(()) => {},
                    Err(e) => {
                        return Err(e);
                    },
                }
                self.emit(Opcode::NewArray);
                self.emit_byte(count as u8);
                Ok(())
            },
        }
    }

    /// Compiles `a[i]` and `a[i] = e`.
    pub fn compile_subscript(&mut self, s: &SubscriptExpr, modules: &ModuleTable, fuel: usize) -> (r: Result<
        (),
        CompileError,
    >)
        requires
            old(self)@.wf(),
            modules.wf(),
        ensures
            agrees(
                compile_subscript(*s, old(self)@, *modules, fuel as nat),
                r,
                final(self)@,
            ),
            r is Ok ==> steady(old(self)@, final(self)@),
        decreases fuel, *s, 0nat,
    {
        match self.compile_value(&s.callee, modules, fuel) {
            Ok(()) => {},
            Err(e) => {
                return Err(e);
            },
        }
        match self.compile_value(&s.index, modules, fuel) {
            Ok(()) => {},
            Err(e) => {
                return Err(e);
            },
        }
        match &s.expr {
            Some(e) => {
                match self.compile_value(e, modules, fuel) {
                    Ok(()) => {},
                    Err(e) => {
                        return Err(e);
                    },
                }
                self.emit(Opcode::StoreSubscript);
                Ok(())
            },
            None => {
                self.emit(Opcode::IndexSubscript);
                Ok(())
            },
        }
    }

    /// Compiles a class declaration.
    pub fn compile_class(&mut self, c: &ClassExpr) -> (r: Result<(), CompileError>)
        requires
            old(self)@.wf(),
        ensures
            agrees(compile_class(*c, old(self)@), r, final(self)@),
            r is Ok ==> steady(old(self)@, final(self)@),
    {
        let index = match self.add_constant(Value::string(c.name.name.clone())) {
            Ok(index) => index,
            Err(e) => {
                return Err(e);
            },
        };
        match self.compile_declare_var(&c.name) {
            Ok(()) => {},
            Err(e) => {
                return Err(e);
            },
        }
        self.emit(Opcode::Class);
        self.emit_byte(index);
        if self.current.scope_depth == 0 {
            self.compile_define_var(&c.name)
        } else {
            Ok(())
        }
    }

    /// Whether the current scope already declares a local called `name`.
    pub fn is_declared_in_scope(&self, name: &String) -> (b: bool)
        requires
            self@.wf(),
        ensures
            b == self@.declared_in_scope(name@, self@.locals.len() as int),
    {
        let depth = self.current.scope_depth;
        let mut i: usize = self.current.locals.len();
        while i > 0
            invariant
                i <= self.current.locals.len(),
                self@.wf(),
                depth == self.current.scope_depth,
                self@.declared_in_scope(name@, self@.locals.len() as int)
                    == self@.declared_in_scope(name@, i as int),
            decreases i,
        {
            let local = &self.current.locals[i - 1];
            assert(local@ == self@.locals[i - 1]);
            if local.depth != -1 && (local.depth as isize) < depth {
                return false;
            }
            if *name == local.name {
                return true;
            }
            i -= 1;
        }
        false
    }

    /// Declares `var` as a local of the current scope. At the top level
    /// nothing is declared: variables are global there. Where the scope
    /// already has a local of that name, or no slot is left, that is an
    /// error and locals and code stay as they are.
    pub fn compile_declare_var(&mut self, var: &Variable) -> (r: Result<(), CompileError>)
        requires
            old(self)@.wf(),
        ensures
            agrees(old(self)@.declare_var(var.name@), r, final(self)@),
            r is Ok ==> steady(old(self)@, final(self)@),
            r is Err ==> final(self)@ == old(self)@,
    {
        if self.current.scope_depth == 0 {
            return Ok(());
        }
        if self.is_declared_in_scope(&var.name) {
            return Err(CompileError::DuplicateLocal);
        }
        match self.add_local(var.name.clone()) {
            Ok(()) => {},
            Err(e) => {
                return Err(e);
            },
        }
        self.mark_initialized();
        proof {
            assert(self@.locals =~= old(self)@.locals.push(
                LocalView { name: var.name@, depth: old(self)@.depth },
            ));
        }
        Ok(())
    }

    /// Defines `var` from the value on top of the stack: inside a scope the
    /// value stays where it is and the local declared last is marked
    /// initialized; at the top level a global is defined.
    pub fn compile_define_var(&mut self, var: &Variable) -> (r: Result<(), CompileError>)
        requires
            old(self)@.wf(),
        ensures
            agrees(old(self)@.define_var(var.name@), r, final(self)@),
            r is Ok ==> steady(old(self)@, final(self)@),
            r is Err ==> final(self)@ == old(self)@.emit(Opcode::DefineGlobal),
    {
        if self.current.scope_depth > 0 {
            self.mark_initialized();
            return Ok(());
        }
        self.emit_named(Opcode::DefineGlobal, &var.name)
    }

    /// Makes the value on top of the stack the variable `var`: a new local
    /// inside a scope, a global at the top level.
    pub fn define_variable(&mut self, var: &Variable) -> (r: Result<(), CompileError>)
        requires
            old(self)@.wf(),
        ensures
            agrees(old(self)@.define_variable(var.name@), r, final(self)@),
            r is Ok ==> steady(old(self)@, final(self)@),
            r is Err ==> final(self)@ == (if old(self)@.depth > 0 {
                old(self)@
            } else {
                old(self)@.emit(Opcode::DefineGlobal)
            }),
    {
        if self.current.scope_depth > 0 {
            self.compile_declare_var(var)
        } else {
            self.compile_define_var(var)
        }
    }

    /// Emits a backward jump to `loop_start`.
    pub fn emit_loop(&mut self, loop_start: usize) -> (r: Result<(), CompileError>)
        requires
            old(self)@.wf(),
            loop_start <= old(self)@.code().len(),
        ensures
            agrees(old(self)@.emit_loop(loop_start as int), r, final(self)@),
            r is Ok ==> steady(old(self)@, final(self)@),
            r is Err ==> final(self)@ == old(self)@,
    {
        let len = self.current.function.chunk.code.len();
        let distance = len - loop_start;
        if distance > MAX_JUMP - 3 {
            return Err(CompileError::JumpTooLarge);
        }
        let distance = distance + 3;
        self.emit(Opcode::Loop);
        self.emit_byte((distance / 256) as u8);
        self.emit_byte((distance % 256) as u8);
        Ok(())
    }

    /// Emits a jump with a placeholder for its distance, and returns the
    /// offset of the placeholder for `patch_jump`.
    pub fn emit_jump(&mut self, instruction: Opcode) -> (at: usize)
        requires
            old(self)@.wf(),
        ensures
            final(self)@ == old(self)@.emit_jump(instruction),
            at == old(self)@.jump_slot(),
            at + 2 == final(self)@.code().len(),
            final(self)@.wf(),
    {
        self.emit(instruction);
        self.emit_byte(0xff);
        self.emit_byte(0xff);
        self.current.function.chunk.code.len() - 2
    }

    /// Overwrites the placeholder at `offset` with the distance from behind
    /// it to the end of the code.
    pub fn patch_jump(&mut self, offset: usize) -> (r: Result<(), CompileError>)
        requires
            old(self)@.wf(),
            offset + 2 <= old(self)@.code().len(),
        ensures
            agrees(old(self)@.patch_jump(offset as int), r, final(self)@),
            r is Ok ==> steady(old(self)@, final(self)@),
            r is Err ==> final(self)@ == old(self)@,
    {
        let jump = self.current.function.chunk.code.len() - offset - 2;
        if jump > MAX_JUMP {
            return Err(CompileError::JumpTooLarge);
        }
        self.current.function.chunk.code.set(offset, (jump / 256) as u8);
        self.current.function.chunk.code.set(offset + 1, (jump % 256) as u8);
        Ok(())
    }

    /// Compiles a literal: a constant, or `Nil` for nil.
    pub fn compile_literal(&mut self, literal: &LiteralExpr) -> (r: Result<(), CompileError>)
        requires
            old(self)@.wf(),
        ensures
            agrees(compile_literal(*literal, old(self)@), r, final(self)@),
            r is Ok ==> steady(old(self)@, final(self)@),
            r is Err ==> final(self)@ == old(self)@,
    {
        match literal {
            LiteralExpr::Number(n) => self.emit_constant(Value::Number(*n)),
            LiteralExpr::String(s) => self.emit_string(s.as_str()),
            LiteralExpr::True => self.emit_constant(Value::True),
            LiteralExpr::False => self.emit_constant(Value::False),
            LiteralExpr::Nil => {
                self.emit(Opcode::Nil);
                Ok(())
            },
        }
    }

    /// The slot of the variable `name`, if it is a local: the local declared
    /// last under that name. `None` means that the variable is global.
    pub fn resolve_local(&self, name: &String) -> (r: Result<Option<u8>, CompileError>)
        requires
            self@.locals.len() <= MAX_LOCALS,
        ensures
            match r {
                Ok(Some(slot)) => self@.resolve_local(name@) == Ok::<_, CompileError>(
                    Some(slot as int),
                ),
                Ok(None) => self@.resolve_local(name@) == Ok::<Option<int>, CompileError>(None),
                Err(e) => self@.resolve_local(name@) == Err::<Option<int>, _>(e),
            },
    {
        let mut i: usize = self.current.locals.len();
        while i > 0
            invariant
                i <= self.current.locals.len(),
                self@.locals.len() <= MAX_LOCALS,
                self@.find_local(name@, self@.locals.len() as int) == self@.find_local(
                    name@,
                    i as int,
                ),
            decreases i,
        {
            let local = &self.current.locals[i - 1];
            assert(local@ == self@.locals[i - 1]);
            if *name == local.name {
                if local.depth == -1 {
                    return Err(CompileError::OwnInitializer);
                }
                return Ok(Some((i - 1) as u8));
            }
            i -= 1;
        }
        Ok(None)
    }

    /// Emits `local` with the slot of `name` where `name` is a local, and
    /// `global` with the name as a constant where it is not.
    pub(crate) fn emit_variable(&mut self, local: Opcode, global: Opcode, name: &String) -> (r: Result<
        (),
        CompileError,
    >)
        requires
            old(self)@.wf(),
        ensures
            agrees(
                match old(self)@.resolve_local(name@) {
                    Err(e) => Err(e),
                    Ok(Some(slot)) => Ok(old(self)@.emit_with(local, slot as u8)),
                    Ok(None) => old(self)@.emit_named(global, name@),
                },
                r,
                final(self)@,
            ),
            r is Ok ==> steady(old(self)@, final(self)@),
            r is Err ==> final(self)@ == (if old(self)@.resolve_local(name@) is Err {
                old(self)@
            } else {
                old(self)@.emit(global)
            }),
    {
        match self.resolve_local(name) {
            Err(e) => Err(e),
            Ok(Some(slot)) => {
                self.emit(local);
                self.emit_byte(slot);
                Ok(())
            },
            Ok(None) => self.emit_named(global, name),
        }
    }

    /// Emits the opcodes of a binary operator.
    fn emit_operator(&mut self, operator: BinaryOperator)
        requires
            old(self)@.wf(),
        ensures
            final(self)@ == old(self)@.emit_operator(operator),
            final(self)@.wf(),
    {
        match operator {
            BinaryOperator::Add => self.emit(Opcode::Add),
            BinaryOperator::Subtract => self.emit(Opcode::Subtract),
            BinaryOperator::Multiply => self.emit(Opcode::Multiply),
            BinaryOperator::Divide => self.emit(Opcode::Divide),
            BinaryOperator::Equal => self.emit(Opcode::Equal),
            BinaryOperator::BangEqual => {
                self.emit(Opcode::Equal);
                self.emit(Opcode::Not);
            },
            BinaryOperator::GreaterThan => self.emit(Opcode::Greater),
            BinaryOperator::GreaterThanEqual => {
                self.emit(Opcode::Less);
                self.emit(Opcode::Not);
            },
            BinaryOperator::LessThan => self.emit(Opcode::Less),
            BinaryOperator::LessThanEqual => {
                self.emit(Opcode::Greater);
                self.emit(Opcode::Not);
            },
        }
    }

    /// Adds a local that is not yet initialized.
    fn add_local(&mut self, name: String) -> (r: Result<(), CompileError>)
        ensures
            agrees(old(self)@.add_local(name@), r, final(self)@),
            r is Err ==> final(self)@ == old(self)@,
    {
        if self.current.locals.len() >= MAX_LOCALS {
            return Err(CompileError::TooManyLocals);
        }
        let local = Local::new(name, -1);
        self.current.locals.push(local);
        proof {
            assert(self@.locals =~= old(self)@.locals.push(LocalView { name: name@, depth: -1 }));
        }
        Ok(())
    }

    /// Marks the local declared last as initialized.
    fn mark_initialized(&mut self)
        requires
            0 <= old(self)@.depth <= MAX_SCOPE_DEPTH,
        ensures
            final(self)@ == old(self)@.mark_initialized(),
    {
        if self.current.scope_depth == 0 || self.current.locals.len() <= 1 {
            return ;
        }
        let index = self.current.locals.len() - 1;
        let depth = self.current.scope_depth as i32;
        self.current.locals[index].depth = depth;
        proof {
            assert(self@.locals =~= old(self)@.mark_initialized().locals);
        }
    }

    /// Enters a scope.
    pub fn begin_scope(&mut self)
        requires
            old(self)@.wf(),
            old(self)@.depth < MAX_SCOPE_DEPTH,
        ensures
            final(self)@ == old(self)@.begin_scope(),
            final(self)@.wf(),
    {
        self.current.scope_depth += 1;
    }

    /// Leaves the current scope: its locals are dropped, last declared
    /// first, and one `Pop` is emitted for each.
    pub fn end_scope(&mut self)
        requires
            old(self)@.wf(),
            old(self)@.depth > 0,
        ensures
            final(self)@ == old(self)@.end_scope(),
            final(self)@.wf(),
            final(self)@.depth == old(self)@.depth - 1,
            final(self)@.code().len() >= old(self)@.code().len(),
    {
        self.current.scope_depth -= 1;
        let depth = self.current.scope_depth;
        while self.current.locals.len() > 0 && self.current.locals[self.current.locals.len()
            - 1].depth as isize > depth
            invariant
                depth == self.current.scope_depth,
                0 <= depth < MAX_SCOPE_DEPTH,
                self@.function.chunk.wf(),
                1 <= self@.locals.len() <= MAX_LOCALS,
                self@.locals[0].depth == 0,
                self@.code().len() >= old(self)@.code().len(),
                forall|i: int|
                    0 <= i < self@.locals.len() ==> 0 <= (#[trigger] self@.locals[i]).depth
                        <= depth + 1,
                forall|i: int, j: int|
                    0 <= i <= j < self@.locals.len() ==> (#[trigger] self@.locals[i]).depth <= (
                    #[trigger] self@.locals[j]).depth,
                old(self)@.end_scope() == self@.pop_locals(),
            decreases self.current.locals.len(),
        {
            let ghost before = self@;
            self.emit(Opcode::Pop);
            self.current.locals.pop();
            proof {
                assert(self@.locals =~= before.locals.drop_last());
            }
        }
    }

    /// Ends the function: emits the implicit `return nil` and hands the
    /// function over.
    pub fn end_compiler(self) -> (f: GreenFunction)
        requires
            self@.wf(),
        ensures
            f@ == self@.emit_return().function,
    {
        let mut this = self;
        this.emit_return();
        this.current.function
    }

    /// The chunk that is being written.
    pub fn current_chunk(&mut self) -> (c: &mut Chunk)
        ensures
            *c == old(self).current.function.chunk,
            final(self).current.function.chunk == *final(c),
            final(self).current.function.name == old(self).current.function.name,
            final(self).current.function.arity == old(self).current.function.arity,
            final(self).current.function_type == old(self).current.function_type,
            final(self).current.locals == old(self).current.locals,
            final(self).current.scope_depth == old(self).current.scope_depth,
    {
        &mut self.current.function.chunk
    }

    /// Emits `Nil` and `Return`.
    pub fn emit_return(&mut self)
        requires
            old(self)@.wf(),
        ensures
            final(self)@ == old(self)@.emit_return(),
            final(self)@.wf(),
    {
        self.emit(Opcode::Nil);
        self.emit(Opcode::Return);
    }

    /// Emits the load of a string constant.
    pub fn emit_string(&mut self, s: &str) -> (r: Result<(), CompileError>)
        requires
            old(self)@.wf(),
        ensures
            agrees(old(self)@.emit_constant(ValueView::String(s@)), r, final(self)@),
            r is Ok ==> steady(old(self)@, final(self)@),
            r is Err ==> final(self)@ == old(self)@,
    {
        self.emit_constant(Value::String(s.to_owned()))
    }

    /// Adds `value` to the constants and emits its load.
    pub fn emit_constant(&mut self, value: Value) -> (r: Result<(), CompileError>)
        requires
            old(self)@.wf(),
        ensures
            agrees(old(self)@.emit_constant(value@), r, final(self)@),
            r is Ok ==> steady(old(self)@, final(self)@),
            r is Err ==> final(self)@ == old(self)@,
    {
        match self.add_constant(value) {
            Ok(constant) => {
                self.emit(Opcode::Constant);
                self.emit_byte(constant);
                Ok(())
            },
            Err(e) => Err(e),
        }
    }

    /// Emits `opcode`, adds the string `name` to the constants and emits its
    /// index as the operand.
    pub fn emit_named(&mut self, opcode: Opcode, name: &String) -> (r: Result<(), CompileError>)
        requires
            old(self)@.wf(),
        ensures
            agrees(old(self)@.emit_named(opcode, name@), r, final(self)@),
            r is Ok ==> steady(old(self)@, final(self)@),
            r is Err ==> final(self)@ == old(self)@.emit(opcode),
    {
        self.emit(opcode);
        match self.add_constant(Value::string(name.clone())) {
            Ok(constant) => {
                self.emit_byte(constant);
                Ok(())
            },
            Err(e) => Err(e),
        }
    }

    /// Adds `value` to the constants of the current chunk.
    pub fn add_constant(&mut self, value: Value) -> (r: Result<u8, CompileError>)
        requires
            old(self)@.wf(),
        ensures
            match r {
                Ok(index) => old(self)@.add_constant(value@) == Ok::<_, CompileError>(final(self)@)
                    && index == old(self)@.next_constant(),
                Err(e) => old(self)@.add_constant(value@) == Err::<CompilerView, _>(e),
            },
            r is Ok ==> steady(old(self)@, final(self)@),
            r is Err ==> final(self)@ == old(self)@,
    {
        match self.current.function.chunk.add_constant(value) {
            Some(index) => Ok(index),
            None => Err(CompileError::TooManyConstants),
        }
    }

    /// Emits an opcode.
    pub fn emit(&mut self, opcode: Opcode)
        ensures
            final(self)@ == old(self)@.emit(opcode),
            old(self)@.function.chunk.wf() ==> final(self)@.function.chunk.wf(),
            old(self)@.wf() ==> final(self)@.wf(),
    {
        self.current.function.chunk.write(opcode, UNKNOWN_LINE);
    }

    /// Emits an operand byte.
    pub fn emit_byte(&mut self, byte: u8)
        ensures
            final(self)@ == old(self)@.emit_byte(byte),
            old(self)@.function.chunk.wf() ==> final(self)@.function.chunk.wf(),
            old(self)@.wf() ==> final(self)@.wf(),
    {
        self.current.function.chunk.write_byte(byte);
    }
}

} // verus!
