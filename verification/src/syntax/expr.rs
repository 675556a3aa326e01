use crate::compiler::compiler::{agrees, Compiler};
use crate::compiler::module_resolver::ModuleTable;
use crate::compiler::rules::{compile_node, fails_at_once, steady};
use crate::error::CompileError;
use crate::syntax::token::TokenType;
use vstd::prelude::*;

verus! {

/// What can be compiled: a node of the syntax tree.
pub trait Compile {
    /// The node that `self` is.
    spec fn node(&self) -> ExprKind;

    /// Compiles the node into the function that `compiler` is writing, by
    /// the rule of its kind. Imports are looked up in `modules`, and nest
    /// no deeper than `fuel`. A node that is refused before anything is
    /// emitted for it leaves the compiler as it was.
    fn compile(&self, compiler: &mut Compiler, modules: &ModuleTable, fuel: usize) -> (r: Result<
        (),
        CompileError,
    >)
        requires
            old(compiler)@.wf(),
            modules.wf(),
        ensures
            agrees(
                compile_node(self.node(), old(compiler)@, *modules, fuel as nat),
                r,
                final(compiler)@,
            ),
            r is Ok ==> steady(old(compiler)@, final(compiler)@),
            fails_at_once(self.node(), old(compiler)@, *modules, fuel as nat) ==> final(compiler)@
                == old(compiler)@,
    ;
}

/// A node of the syntax tree.
#[derive(PartialEq, Debug)]
pub struct Expr {
    pub node: Box<ExprKind>,
}

impl Expr {
    pub fn new(node: ExprKind) -> (e: Expr)
        ensures
            *e.node == node,
            e@ == kind_view(node),
    {
        Expr { node: Box::new(node) }
    }

    pub fn sequence(seq_expr: SequenceExpr) -> (e: Expr)
        ensures
            *e.node == ExprKind::Sequence(seq_expr),
            e@ == kind_view(ExprKind::Sequence(seq_expr)),
    {
        Expr::new(ExprKind::Sequence(seq_expr))
    }

    pub fn import(import_expr: ImportExpr) -> (e: Expr)
        ensures
            *e.node == ExprKind::Import(import_expr),
            e@ == kind_view(ExprKind::Import(import_expr)),
    {
        Expr::new(ExprKind::Import(import_expr))
    }

    pub fn literal(literal_expr: LiteralExpr) -> (e: Expr)
        ensures
            *e.node == ExprKind::Literal(literal_expr),
            e@ == kind_view(ExprKind::Literal(literal_expr)),
    {
        Expr::new(ExprKind::Literal(literal_expr))
    }

    pub fn binary(binary: BinaryExpr) -> (e: Expr)
        ensures
            *e.node == ExprKind::Binary(binary),
            e@ == kind_view(ExprKind::Binary(binary)),
    {
        Expr::new(ExprKind::Binary(binary))
    }

    pub fn block(block: BlockExpr) -> (e: Expr)
        ensures
            *e.node == ExprKind::Block(block),
            e@ == kind_view(ExprKind::Block(block)),
    {
        Expr::new(ExprKind::Block(block))
    }

    pub fn var_assign(assign: VarAssignExpr) -> (e: Expr)
        ensures
            *e.node == ExprKind::VarAssign(assign),
            e@ == kind_view(ExprKind::VarAssign(assign)),
    {
        Expr::new(ExprKind::VarAssign(assign))
    }

    pub fn var_set(set: VarSetExpr) -> (e: Expr)
        ensures
            *e.node == ExprKind::VarSet(set),
            e@ == kind_view(ExprKind::VarSet(set)),
    {
        Expr::new(ExprKind::VarSet(set))
    }

    pub fn var_get(get: VarGetExpr) -> (e: Expr)
        ensures
            *e.node == ExprKind::VarGet(get),
            e@ == kind_view(ExprKind::VarGet(get)),
    {
        Expr::new(ExprKind::VarGet(get))
    }

    pub fn print(print: PrintExpr) -> (e: Expr)
        ensures
            *e.node == ExprKind::Print(print),
            e@ == kind_view(ExprKind::Print(print)),
    {
        Expr::new(ExprKind::Print(print))
    }

    pub fn grouping(group: GroupingExpr) -> (e: Expr)
        ensures
            *e.node == ExprKind::Grouping(group),
            e@ == kind_view(ExprKind::Grouping(group)),
    {
        Expr::new(ExprKind::Grouping(group))
    }

    pub fn if_else(if_else: IfElseExpr) -> (e: Expr)
        ensures
            *e.node == ExprKind::IfElse(if_else),
            e@ == kind_view(ExprKind::IfElse(if_else)),
    {
        Expr::new(ExprKind::IfElse(if_else))
    }

    pub fn while_(while_expr: WhileExpr) -> (e: Expr)
        ensures
            *e.node == ExprKind::While(while_expr),
            e@ == kind_view(ExprKind::While(while_expr)),
    {
        Expr::new(ExprKind::While(while_expr))
    }

    pub fn return_(return_expr: ReturnExpr) -> (e: Expr)
        ensures
            *e.node == ExprKind::Return(return_expr),
            e@ == kind_view(ExprKind::Return(return_expr)),
    {
        Expr::new(ExprKind::Return(return_expr))
    }

    pub fn get_property(get_property: GetExpr) -> (e: Expr)
        ensures
            *e.node == ExprKind::GetProperty(get_property),
            e@ == kind_view(ExprKind::GetProperty(get_property)),
    {
        Expr::new(ExprKind::GetProperty(get_property))
    }

    pub fn set_property(set_property: SetExpr) -> (e: Expr)
        ensures
            *e.node == ExprKind::SetProperty(set_property),
            e@ == kind_view(ExprKind::SetProperty(set_property)),
    {
        Expr::new(ExprKind::SetProperty(set_property))
    }

    pub fn nil() -> (e: Expr)
        ensures
            *e.node == ExprKind::Literal(LiteralExpr::Nil),
            e@ == ExprView::Nil,
    {
        Expr::new(ExprKind::Literal(LiteralExpr::Nil))
    }

    pub fn class(class_expr: ClassExpr) -> (e: Expr)
        ensures
            *e.node == ExprKind::Class(class_expr),
            e@ == kind_view(ExprKind::Class(class_expr)),
    {
        Expr::new(ExprKind::Class(class_expr))
    }
}

#[derive(PartialEq, Debug)]
pub enum ExprKind {
    Sequence(SequenceExpr),
    Import(ImportExpr),
    Literal(LiteralExpr),
    Binary(BinaryExpr),
    Unary(UnaryExpr),
    Block(BlockExpr),
    VarAssign(VarAssignExpr),
    VarSet(VarSetExpr),
    VarGet(VarGetExpr),
    Print(PrintExpr),
    Grouping(GroupingExpr),
    If(IfExpr),
    IfElse(IfElseExpr),
    Function(FunctionExpr),
    Class(ClassExpr),
    Call(CallExpr),
    While(WhileExpr),
    Return(ReturnExpr),
    GetProperty(GetExpr),
    SetProperty(SetExpr),
    Array(ArrayExpr),
    Subscript(SubscriptExpr),
}

impl ExprKind {
    /// The block, if the node is one.
    pub fn block(self) -> (b: Option<BlockExpr>)
        ensures
            b == match self {
                ExprKind::Block(block) => Some(block),
                _ => None,
            },
    {
        match self {
            ExprKind::Block(block) => Some(block),
            _ => None,
        }
    }

    /// Whether the node yields a value. The other nodes are statements:
    /// they leave nothing on the stack.
    pub open spec fn yields_value(self) -> bool {
        match self {
            ExprKind::Literal(_)
            | ExprKind::Binary(_)
            | ExprKind::Unary(_)
            | ExprKind::VarSet(_)
            | ExprKind::VarGet(_)
            | ExprKind::Grouping(_)
            | ExprKind::Call(_)
            | ExprKind::GetProperty(_)
            | ExprKind::SetProperty(_)
            | ExprKind::Array(_)
            | ExprKind::Subscript(_) => true,
            _ => false,
        }
    }

    /// Whether the node yields a value.
    pub fn is_value(&self) -> (b: bool)
        ensures
            b == self.yields_value(),
    {
        match self {
            ExprKind::Literal(_)
            | ExprKind::Binary(_)
            | ExprKind::Unary(_)
            | ExprKind::VarSet(_)
            | ExprKind::VarGet(_)
            | ExprKind::Grouping(_)
            | ExprKind::Call(_)
            | ExprKind::GetProperty(_)
            | ExprKind::SetProperty(_)
            | ExprKind::Array(_)
            | ExprKind::Subscript(_) => true,
            _ => false,
        }
    }
}

/// Statements one after the other, in the scope around them.
#[derive(PartialEq, Debug)]
pub struct SequenceExpr {
    pub exprs: Vec<Expr>,
}

impl SequenceExpr {
    pub fn new(exprs: Vec<Expr>) -> (s: SequenceExpr)
        ensures
            s.exprs == exprs,
    {
        SequenceExpr { exprs }
    }
}

/// `import a.b`: the statements of another module, in place.
#[derive(PartialEq, Debug)]
pub struct ImportExpr {
    pub module: String,
}

impl ImportExpr {
    pub fn new(module: String) -> (i: ImportExpr)
        ensures
            i.module == module,
    {
        ImportExpr { module }
    }
}

/// A literal. A number is held as the bit pattern of its binary64 value.
#[derive(PartialEq, Debug)]
pub enum LiteralExpr {
    Number(u64),
    String(String),
    True,
    False,
    Nil,
}

#[derive(PartialEq, Debug)]
pub struct BinaryExpr {
    pub lhs: Expr,
    pub rhs: Expr,
    pub operator: BinaryOperator,
}

impl BinaryExpr {
    pub fn new(lhs: Expr, rhs: Expr, operator: BinaryOperator) -> (b: BinaryExpr)
        ensures
            b.lhs == lhs,
            b.rhs == rhs,
            b.operator == operator,
    {
        BinaryExpr { lhs, rhs, operator }
    }
}

#[derive(PartialEq, Eq, Structural, Debug, Copy, Clone)]
pub enum BinaryOperator {
    Equal,
    BangEqual,
    GreaterThan,
    GreaterThanEqual,
    LessThan,
    LessThanEqual,
    Subtract,
    Add,
    Divide,
    Multiply,
}

impl BinaryOperator {
    /// The operator that a token type stands for, if it stands for one.
    pub open spec fn of_token(token_type: TokenType) -> Option<BinaryOperator> {
        match token_type {
            TokenType::Minus => Some(BinaryOperator::Subtract),
            TokenType::Plus => Some(BinaryOperator::Add),
            TokenType::Star => Some(BinaryOperator::Multiply),
            TokenType::Slash => Some(BinaryOperator::Divide),
            TokenType::BangEqual => Some(BinaryOperator::BangEqual),
            TokenType::Equal => Some(BinaryOperator::Equal),
            TokenType::EqualEqual => Some(BinaryOperator::Equal),
            TokenType::LessThan => Some(BinaryOperator::LessThan),
            TokenType::LessThanEqual => Some(BinaryOperator::LessThanEqual),
            TokenType::GreaterThan => Some(BinaryOperator::GreaterThan),
            TokenType::GreaterThanEqual => Some(BinaryOperator::GreaterThanEqual),
            _ => None,
        }
    }

    /// The operator that `token_type` stands for; `None` for a token type
    /// that is no binary operator.
    pub fn from_token(token_type: TokenType) -> (op: Option<BinaryOperator>)
        ensures
            op == BinaryOperator::of_token(token_type),
    {
        match token_type {
            TokenType::Minus => Some(BinaryOperator::Subtract),
            TokenType::Plus => Some(BinaryOperator::Add),
            TokenType::Star => Some(BinaryOperator::Multiply),
            TokenType::Slash => Some(BinaryOperator::Divide),
            TokenType::BangEqual => Some(BinaryOperator::BangEqual),
            TokenType::Equal => Some(BinaryOperator::Equal),
            TokenType::EqualEqual => Some(BinaryOperator::Equal),
            TokenType::LessThan => Some(BinaryOperator::LessThan),
            TokenType::LessThanEqual => Some(BinaryOperator::LessThanEqual),
            TokenType::GreaterThan => Some(BinaryOperator::GreaterThan),
            TokenType::GreaterThanEqual => Some(BinaryOperator::GreaterThanEqual),
            _ => None,
        }
    }
}

#[derive(PartialEq, Debug)]
pub struct UnaryExpr {
    pub expr: Expr,
    pub operator: UnaryOperator,
}

impl UnaryExpr {
    pub fn new(expr: Expr, operator: UnaryOperator) -> (u: UnaryExpr)
        ensures
            u.expr == expr,
            u.operator == operator,
    {
        UnaryExpr { expr, operator }
    }
}

#[derive(PartialEq, Eq, Structural, Debug, Clone, Copy)]
pub enum UnaryOperator {
    Negate,
    Not,
}

/// Statements in a scope of their own.
#[derive(PartialEq, Debug)]
pub struct BlockExpr {
    pub exprs: Vec<Expr>,
}

impl BlockExpr {
    pub fn new(exprs: Vec<Expr>) -> (b: BlockExpr)
        ensures
            b.exprs == exprs,
    {
        BlockExpr { exprs }
    }
}

#[derive(PartialEq, Debug)]
pub struct GroupingExpr {
    pub expr: Expr,
}

impl GroupingExpr {
    pub fn new(expr: Expr) -> (g: GroupingExpr)
        ensures
            g.expr == expr,
    {
        GroupingExpr { expr }
    }
}

/// `var x = e`: declares a variable.
#[derive(PartialEq, Debug)]
pub struct VarAssignExpr {
    pub variable: Variable,
    pub initializer: Expr,
}

impl VarAssignExpr {
    pub fn new(variable: Variable, initializer: Expr) -> (v: VarAssignExpr)
        ensures
            v.variable == variable,
            v.initializer == initializer,
    {
        VarAssignExpr { variable, initializer }
    }
}

/// `x = e`: assigns to a declared variable.
#[derive(PartialEq, Debug)]
pub struct VarSetExpr {
    pub variable: Variable,
    pub initializer: Expr,
}

impl VarSetExpr {
    pub fn new(variable: Variable, initializer: Expr) -> (v: VarSetExpr)
        ensures
            v.variable == variable,
            v.initializer == initializer,
    {
        VarSetExpr { variable, initializer }
    }
}

#[derive(PartialEq, Debug)]
pub struct VarGetExpr {
    pub variable: Variable,
}

impl VarGetExpr {
    pub fn new(variable: Variable) -> (v: VarGetExpr)
        ensures
            v.variable == variable,
    {
        VarGetExpr { variable }
    }
}

#[derive(PartialEq, Debug)]
pub struct PrintExpr {
    pub expr: Expr,
}

impl PrintExpr {
    pub fn new(expr: Expr) -> (p: PrintExpr)
        ensures
            p.expr == expr,
    {
        PrintExpr { expr }
    }
}

#[derive(PartialEq, Debug)]
pub struct Variable {
    pub name: String,
}

impl Variable {
    pub fn new(name: String) -> (v: Variable)
        ensures
            v.name == name,
    {
        Variable { name }
    }
}

#[derive(PartialEq, Debug)]
pub struct IfExpr {
    pub condition: Expr,
    pub then_clause: Expr,
}

impl IfExpr {
    pub fn new(condition: Expr, then_clause: Expr) -> (i: IfExpr)
        ensures
            i.condition == condition,
            i.then_clause == then_clause,
    {
        IfExpr { condition, then_clause }
    }
}

#[derive(PartialEq, Debug)]
pub struct IfElseExpr {
    pub condition: Expr,
    pub then_clause: BlockExpr,
    pub else_clause: BlockExpr,
}

impl IfElseExpr {
    pub fn new(condition: Expr, then_clause: BlockExpr, else_clause: BlockExpr) -> (i: IfElseExpr)
        ensures
            i.condition == condition,
            i.then_clause == then_clause,
            i.else_clause == else_clause,
    {
        IfElseExpr { condition, then_clause, else_clause }
    }
}

#[derive(PartialEq, Debug)]
pub struct FunctionDeclaration {
    pub parameters: Vec<Variable>,
    pub body: BlockExpr,
}

impl FunctionDeclaration {
    pub fn new(parameters: Vec<Variable>, body: BlockExpr) -> (d: FunctionDeclaration)
        ensures
            d.parameters == parameters,
            d.body == body,
    {
        FunctionDeclaration { parameters, body }
    }
}

#[derive(PartialEq, Debug)]
pub struct FunctionExpr {
    pub variable: Variable,
    pub declaration: FunctionDeclaration,
}

impl FunctionExpr {
    pub fn new(variable: Variable, declaration: FunctionDeclaration) -> (f: FunctionExpr)
        ensures
            f.variable == variable,
            f.declaration == declaration,
    {
        FunctionExpr { variable, declaration }
    }
}

#[derive(PartialEq, Debug)]
pub struct ClassExpr {
    pub name: Variable,
}

impl ClassExpr {
    pub fn new(name: Variable) -> (c: ClassExpr)
        ensures
            c.name == name,
    {
        ClassExpr { name }
    }
}

#[derive(PartialEq, Debug)]
pub struct WhileExpr {
    pub condition: Expr,
    pub body: Expr,
}

impl WhileExpr {
    pub fn new(condition: Expr, body: Expr) -> (w: WhileExpr)
        ensures
            w.condition == condition,
            w.body == body,
    {
        WhileExpr { condition, body }
    }
}

#[derive(PartialEq, Debug)]
pub struct CallExpr {
    pub callee: Expr,
    pub args: Vec<Expr>,
}

impl CallExpr {
    pub fn new(callee: Expr, args: Vec<Expr>) -> (c: CallExpr)
        ensures
            c.callee == callee,
            c.args == args,
    {
        CallExpr { callee, args }
    }
}

#[derive(PartialEq, Debug)]
pub struct ReturnExpr {
    pub expr: Option<Expr>,
}

impl ReturnExpr {
    pub fn new(expr: Option<Expr>) -> (r: ReturnExpr)
        ensures
            r.expr == expr,
    {
        ReturnExpr { expr }
    }
}

#[derive(PartialEq, Debug)]
pub struct ArrayExpr {
    pub exprs: Option<Vec<Expr>>,
}

impl ArrayExpr {
    pub fn new(exprs: Option<Vec<Expr>>) -> (a: ArrayExpr)
        ensures
            a.exprs == exprs,
    {
        ArrayExpr { exprs }
    }
}

/// `a[i]`, or `a[i] = e` where `expr` is there.
#[derive(PartialEq, Debug)]
pub struct SubscriptExpr {
    pub callee: Expr,
    pub index: Expr,
    pub expr: Option<Expr>,
}

impl SubscriptExpr {
    pub fn new(callee: Expr, index: Expr, expr: Option<Expr>) -> (s: SubscriptExpr)
        ensures
            s.callee == callee,
            s.index == index,
            s.expr == expr,
    {
        SubscriptExpr { callee, index, expr }
    }
}

/// `e.property`.
#[derive(PartialEq, Debug)]
pub struct GetExpr {
    pub expr: Expr,
    pub property: String,
}

impl GetExpr {
    pub fn new(expr: Expr, property: String) -> (g: GetExpr)
        ensures
            g.expr == expr,
            g.property == property,
    {
        GetExpr { expr, property }
    }
}

/// `lhs.property = rhs`.
#[derive(PartialEq, Debug)]
pub struct SetExpr {
    pub lhs: Expr,
    pub rhs: Expr,
    pub property: String,
}

impl SetExpr {
    pub fn new(lhs: Expr, rhs: Expr, property: String) -> (s: SetExpr)
        ensures
            s.lhs == lhs,
            s.rhs == rhs,
            s.property == property,
    {
        SetExpr { lhs, rhs, property }
    }
}

/// The mathematical value of a syntax tree.
pub ghost enum ExprView {
    Sequence(Seq<ExprView>),
    Import(Seq<char>),
    Number(u64),
    String(Seq<char>),
    True,
    False,
    Nil,
    Binary(Box<ExprView>, Box<ExprView>, BinaryOperator),
    Unary(Box<ExprView>, UnaryOperator),
    Block(Seq<ExprView>),
    VarAssign(Seq<char>, Box<ExprView>),
    VarSet(Seq<char>, Box<ExprView>),
    VarGet(Seq<char>),
    Print(Box<ExprView>),
    Grouping(Box<ExprView>),
    If(Box<ExprView>, Box<ExprView>),
    IfElse(Box<ExprView>, Seq<ExprView>, Seq<ExprView>),
    Function(Seq<char>, Seq<Seq<char>>, Seq<ExprView>),
    Class(Seq<char>),
    Call(Box<ExprView>, Seq<ExprView>),
    While(Box<ExprView>, Box<ExprView>),
    Return(Option<Box<ExprView>>),
    GetProperty(Box<ExprView>, Seq<char>),
    SetProperty(Box<ExprView>, Box<ExprView>, Seq<char>),
    Array(Option<Seq<ExprView>>),
    Subscript(Box<ExprView>, Box<ExprView>, Option<Box<ExprView>>),
}

/// The views of a sequence of trees, element by element.
pub open spec fn exprs_view(es: Seq<Expr>) -> Seq<ExprView>
    decreases es, 2nat,
{
    Seq::new(
        es.len(),
        |i: int|
            if 0 <= i < es.len() {
                expr_view(es[i])
            } else {
                ExprView::Nil
            },
    )
}

/// The names of a sequence of variables.
pub open spec fn names_view(vs: Seq<Variable>) -> Seq<Seq<char>> {
    Seq::new(vs.len(), |i: int| vs[i].name@)
}

/// The view of a tree, by recursion on its structure.
pub open spec fn expr_view(e: Expr) -> ExprView
    decreases e, 1nat,
{
    kind_view(*e.node)
}

/// The view of a node, by its kind.
pub open spec fn kind_view(k: ExprKind) -> ExprView
    decreases k, 0nat,
{
    match k {
        ExprKind::Sequence(s) => ExprView::Sequence(exprs_view(s.exprs@)),
        ExprKind::Import(i) => ExprView::Import(i.module@),
        ExprKind::Literal(l) => match l {
            LiteralExpr::Number(n) => ExprView::Number(n),
            LiteralExpr::String(s) => ExprView::String(s@),
            LiteralExpr::True => ExprView::True,
            LiteralExpr::False => ExprView::False,
            LiteralExpr::Nil => ExprView::Nil,
        },
        ExprKind::Binary(b) => ExprView::Binary(
            Box::new(expr_view(b.lhs)),
            Box::new(expr_view(b.rhs)),
            b.operator,
        ),
        ExprKind::Unary(u) => ExprView::Unary(Box::new(expr_view(u.expr)), u.operator),
        ExprKind::Block(b) => ExprView::Block(exprs_view(b.exprs@)),
        ExprKind::VarAssign(v) => ExprView::VarAssign(
            v.variable.name@,
            Box::new(expr_view(v.initializer)),
        ),
        ExprKind::VarSet(v) => ExprView::VarSet(v.variable.name@, Box::new(expr_view(v.initializer))),
        ExprKind::VarGet(v) => ExprView::VarGet(v.variable.name@),
        ExprKind::Print(p) => ExprView::Print(Box::new(expr_view(p.expr))),
        ExprKind::Grouping(g) => ExprView::Grouping(Box::new(expr_view(g.expr))),
        ExprKind::If(i) => ExprView::If(
            Box::new(expr_view(i.condition)),
            Box::new(expr_view(i.then_clause)),
        ),
        ExprKind::IfElse(i) => ExprView::IfElse(
            Box::new(expr_view(i.condition)),
            exprs_view(i.then_clause.exprs@),
            exprs_view(i.else_clause.exprs@),
        ),
        ExprKind::Function(f) => ExprView::Function(
            f.variable.name@,
            names_view(f.declaration.parameters@),
            exprs_view(f.declaration.body.exprs@),
        ),
        ExprKind::Class(c) => ExprView::Class(c.name.name@),
        ExprKind::Call(c) => ExprView::Call(Box::new(expr_view(c.callee)), exprs_view(c.args@)),
        ExprKind::While(w) => ExprView::While(
            Box::new(expr_view(w.condition)),
            Box::new(expr_view(w.body)),
        ),
        ExprKind::Return(r) => ExprView::Return(
            match r.expr {
                Some(e) => Some(Box::new(expr_view(e))),
                None => None,
            },
        ),
        ExprKind::GetProperty(g) => ExprView::GetProperty(Box::new(expr_view(g.expr)), g.property@),
        ExprKind::SetProperty(p) => ExprView::SetProperty(
            Box::new(expr_view(p.lhs)),
            Box::new(expr_view(p.rhs)),
            p.property@,
        ),
        ExprKind::Array(a) => ExprView::Array(
            match a.exprs {
                Some(es) => Some(exprs_view(es@)),
                None => None,
            },
        ),
        ExprKind::Subscript(s) => ExprView::Subscript(
            Box::new(expr_view(s.callee)),
            Box::new(expr_view(s.index)),
            match s.expr {
                Some(e) => Some(Box::new(expr_view(e))),
                None => None,
            },
        ),
    }
}

impl View for Expr {
    type V = ExprView;

    open spec fn view(&self) -> ExprView {
        expr_view(*self)
    }
}

/// `exprs_view` keeps the length and maps each element to its view.
pub proof fn lemma_exprs_view(es: Seq<Expr>)
    ensures
        exprs_view(es).len() == es.len(),
        forall|i: int| 0 <= i < es.len() ==> #[trigger] exprs_view(es)[i] == es[i]@,
        forall|e: Expr| #[trigger] exprs_view(es.push(e)) == exprs_view(es).push(e@),
        es.len() == 0 ==> exprs_view(es) == Seq::<ExprView>::empty(),
{
    assert forall|e: Expr| #[trigger] exprs_view(es.push(e)) == exprs_view(es).push(e@) by {
        assert(exprs_view(es.push(e)) =~= exprs_view(es).push(e@));
    }
    if es.len() == 0 {
        assert(exprs_view(es) =~= Seq::<ExprView>::empty());
    }
}

} // verus!
