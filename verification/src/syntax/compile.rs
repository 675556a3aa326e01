use crate::compiler::compiler::Compiler;
use crate::compiler::module_resolver::ModuleTable;
use crate::compiler::opcode::Opcode;
use crate::error::CompileError;
use crate::syntax::expr::{
    ArrayExpr, BinaryExpr, BlockExpr, CallExpr, ClassExpr, Compile, ExprKind, FunctionExpr,
    GetExpr, GroupingExpr, IfElseExpr, IfExpr, ImportExpr, LiteralExpr, PrintExpr, ReturnExpr,
    SequenceExpr, SetExpr, SubscriptExpr, UnaryExpr, VarAssignExpr, VarGetExpr, VarSetExpr,
    WhileExpr,
};
use vstd::prelude::*;

verus! {

impl Compile for ExprKind {
    open spec fn node(&self) -> ExprKind {
        *self
    }

    fn compile(&self, compiler: &mut Compiler, modules: &ModuleTable, fuel: usize) -> (r: Result<
        (),
        CompileError,
    >) {
        compiler.compile_node(self, modules, fuel)
    }
}

impl Compile for SequenceExpr {
    open spec fn node(&self) -> ExprKind {
        ExprKind::Sequence(*self)
    }

    fn compile(&self, compiler: &mut Compiler, modules: &ModuleTable, fuel: usize) -> (r: Result<
        (),
        CompileError,
    >) {
        compiler.compile_statements(&self.exprs, modules, fuel)
    }
}

impl Compile for ImportExpr {
    open spec fn node(&self) -> ExprKind {
        ExprKind::Import(*self)
    }

    fn compile(&self, compiler: &mut Compiler, modules: &ModuleTable, fuel: usize) -> (r: Result<
        (),
        CompileError,
    >) {
        // an import is compiled as the node that holds it
        let node = ExprKind::Import(ImportExpr::new(self.module.clone()));
        compiler.compile_node(&node, modules, fuel)
    }
}

impl Compile for LiteralExpr {
    open spec fn node(&self) -> ExprKind {
        ExprKind::Literal(*self)
    }

    fn compile(&self, compiler: &mut Compiler, modules: &ModuleTable, fuel: usize) -> (r: Result<
        (),
        CompileError,
    >) {
        compiler.compile_literal(self)
    }
}

impl Compile for BinaryExpr {
    open spec fn node(&self) -> ExprKind {
        ExprKind::Binary(*self)
    }

    fn compile(&self, compiler: &mut Compiler, modules: &ModuleTable, fuel: usize) -> (r: Result<
        (),
        CompileError,
    >) {
        compiler.compile_binary(self, modules, fuel)
    }
}

impl Compile for UnaryExpr {
    open spec fn node(&self) -> ExprKind {
        ExprKind::Unary(*self)
    }

    fn compile(&self, compiler: &mut Compiler, modules: &ModuleTable, fuel: usize) -> (r: Result<
        (),
        CompileError,
    >) {
        compiler.compile_unary(self, modules, fuel)
    }
}

impl Compile for BlockExpr {
    open spec fn node(&self) -> ExprKind {
        ExprKind::Block(*self)
    }

    fn compile(&self, compiler: &mut Compiler, modules: &ModuleTable, fuel: usize) -> (r: Result<
        (),
        CompileError,
    >) {
        compiler.compile_block(&self.exprs, modules, fuel)
    }
}

impl Compile for VarAssignExpr {
    open spec fn node(&self) -> ExprKind {
        ExprKind::VarAssign(*self)
    }

    fn compile(&self, compiler: &mut Compiler, modules: &ModuleTable, fuel: usize) -> (r: Result<
        (),
        CompileError,
    >) {
        compiler.compile_var_assign(self, modules, fuel)
    }
}

impl Compile for VarSetExpr {
    open spec fn node(&self) -> ExprKind {
        ExprKind::VarSet(*self)
    }

    fn compile(&self, compiler: &mut Compiler, modules: &ModuleTable, fuel: usize) -> (r: Result<
        (),
        CompileError,
    >) {
        compiler.compile_var_set(self, modules, fuel)
    }
}

impl Compile for VarGetExpr {
    open spec fn node(&self) -> ExprKind {
        ExprKind::VarGet(*self)
    }

    fn compile(&self, compiler: &mut Compiler, modules: &ModuleTable, fuel: usize) -> (r: Result<
        (),
        CompileError,
    >) {
        compiler.emit_variable(Opcode::GetLocal, Opcode::GetGlobal, &self.variable.name)
    }
}

impl Compile for PrintExpr {
    open spec fn node(&self) -> ExprKind {
        ExprKind::Print(*self)
    }

    fn compile(&self, compiler: &mut Compiler, modules: &ModuleTable, fuel: usize) -> (r: Result<
        (),
        CompileError,
    >) {
        compiler.compile_print(self, modules, fuel)
    }
}

impl Compile for GroupingExpr {
    open spec fn node(&self) -> ExprKind {
        ExprKind::Grouping(*self)
    }

    fn compile(&self, compiler: &mut Compiler, modules: &ModuleTable, fuel: usize) -> (r: Result<
        (),
        CompileError,
    >) {
        compiler.compile_value(&self.expr, modules, fuel)
    }
}

impl Compile for IfExpr {
    open spec fn node(&self) -> ExprKind {
        ExprKind::If(*self)
    }

    fn compile(&self, compiler: &mut Compiler, modules: &ModuleTable, fuel: usize) -> (r: Result<
        (),
        CompileError,
    >) {
        compiler.compile_if(self, modules, fuel)
    }
}

impl Compile for IfElseExpr {
    open spec fn node(&self) -> ExprKind {
        ExprKind::IfElse(*self)
    }

    fn compile(&self, compiler: &mut Compiler, modules: &ModuleTable, fuel: usize) -> (r: Result<
        (),
        CompileError,
    >) {
        compiler.compile_if_else(self, modules, fuel)
    }
}

impl Compile for FunctionExpr {
    open spec fn node(&self) -> ExprKind {
        ExprKind::Function(*self)
    }

    fn compile(&self, compiler: &mut Compiler, modules: &ModuleTable, fuel: usize) -> (r: Result<
        (),
        CompileError,
    >) {
        compiler.compile_declaration(self, modules, fuel)
    }
}

impl Compile for ClassExpr {
    open spec fn node(&self) -> ExprKind {
        ExprKind::Class(*self)
    }

    fn compile(&self, compiler: &mut Compiler, modules: &ModuleTable, fuel: usize) -> (r: Result<
        (),
        CompileError,
    >) {
        compiler.compile_class(self)
    }
}

impl Compile for CallExpr {
    open spec fn node(&self) -> ExprKind {
        ExprKind::Call(*self)
    }

    fn compile(&self, compiler: &mut Compiler, modules: &ModuleTable, fuel: usize) -> (r: Result<
        (),
        CompileError,
    >) {
        compiler.compile_call(self, modules, fuel)
    }
}

impl Compile for WhileExpr {
    open spec fn node(&self) -> ExprKind {
        ExprKind::While(*self)
    }

    fn compile(&self, compiler: &mut Compiler, modules: &ModuleTable, fuel: usize) -> (r: Result<
        (),
        CompileError,
    >) {
        compiler.compile_while(self, modules, fuel)
    }
}

impl Compile for ReturnExpr {
    open spec fn node(&self) -> ExprKind {
        ExprKind::Return(*self)
    }

    fn compile(&self, compiler: &mut Compiler, modules: &ModuleTable, fuel: usize) -> (r: Result<
        (),
        CompileError,
    >) {
        compiler.compile_return(self, modules, fuel)
    }
}

impl Compile for GetExpr {
    open spec fn node(&self) -> ExprKind {
        ExprKind::GetProperty(*self)
    }

    fn compile(&self, compiler: &mut Compiler, modules: &ModuleTable, fuel: usize) -> (r: Result<
        (),
        CompileError,
    >) {
        compiler.compile_get_property(self, modules, fuel)
    }
}

impl Compile for SetExpr {
    open spec fn node(&self) -> ExprKind {
        ExprKind::SetProperty(*self)
    }

    fn compile(&self, compiler: &mut Compiler, modules: &ModuleTable, fuel: usize) -> (r: Result<
        (),
        CompileError,
    >) {
        compiler.compile_set_property(self, modules, fuel)
    }
}

impl Compile for ArrayExpr {
    open spec fn node(&self) -> ExprKind {
        ExprKind::Array(*self)
    }

    fn compile(&self, compiler: &mut Compiler, modules: &ModuleTable, fuel: usize) -> (r: Result<
        (),
        CompileError,
    >) {
        compiler.compile_array(self, modules, fuel)
    }
}

impl Compile for SubscriptExpr {
    open spec fn node(&self) -> ExprKind {
        ExprKind::Subscript(*self)
    }

    fn compile(&self, compiler: &mut Compiler, modules: &ModuleTable, fuel: usize) -> (r: Result<
        (),
        CompileError,
    >) {
        compiler.compile_subscript(self, modules, fuel)
    }
}

} // verus!
