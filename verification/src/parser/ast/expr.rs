use crate::scanner::token::TokenType;
use crate::syntax::expr::ExprView;
use vstd::prelude::*;

verus! {

/// A node of the syntax tree of the first grammar.
#[derive(PartialEq, Debug)]
pub struct Expr {
    pub node: Box<ExprKind>,
}

impl Expr {
    pub fn new(node: ExprKind) -> (e: Expr)
        ensures
            *e.node == node,
            e@ == kind_view(node),
    {
        Expr { node: Box::new(node) }
    }
}

#[derive(PartialEq, Debug)]
pub enum ExprKind {
    Literal(LiteralExpr),
    Binary(BinaryExpr),
    Unary(UnaryExpr),
    Block(BlockExpr),
    VarAssign(VarAssignExpr),
    VarSet(VarSetExpr),
    VarGet(VarGetExpr),
    Print(Expr),
    Grouping(GroupingExpr),
    If(IfExpr),
    IfElse(IfElseExpr),
    Function(FunctionExpr),
    Call(CallExpr),
    Return(ReturnExpr),
}

impl ExprKind {
    /// The block, if the node is one.
    pub fn block(self) -> (b: Option<BlockExpr>)
        ensures
            b == match self {
                ExprKind::Block(block) => Some(block),
                _ => None,
            },
    {
        match self {
            ExprKind::Block(block) => Some(block),
            _ => None,
        }
    }
}

/// A literal. A number is held as the bit pattern of its binary64 value.
#[derive(PartialEq, Debug)]
pub enum LiteralExpr {
    Number(u64),
    String(String),
    True,
    False,
    Nil,
}

#[derive(PartialEq, Debug)]
pub struct BinaryExpr {
    pub lhs: Box<Expr>,
    pub rhs: Box<Expr>,
    pub operator: BinaryOperator,
}

impl BinaryExpr {
    pub fn new(lhs: Expr, rhs: Expr, operator: BinaryOperator) -> (b: BinaryExpr)
        ensures
            *b.lhs == lhs,
            *b.rhs == rhs,
            b.operator == operator,
    {
        BinaryExpr { lhs: Box::new(lhs), rhs: Box::new(rhs), operator }
    }
}

#[derive(PartialEq, Eq, Structural, Debug, Copy, Clone)]
pub enum BinaryOperator {
    Equal,
    BangEqual,
    GreaterThan,
    GreaterThanEqual,
    LessThan,
    LessThanEqual,
    Subtract,
    Add,
    Divide,
    Multiply,
}

impl BinaryOperator {
    /// The operator that a token type stands for, if it stands for one.
    pub open spec fn of_token(token_type: TokenType) -> Option<BinaryOperator> {
        match token_type {
            TokenType::Minus => Some(BinaryOperator::Subtract),
            TokenType::Plus => Some(BinaryOperator::Add),
            TokenType::Star => Some(BinaryOperator::Multiply),
            TokenType::Slash => Some(BinaryOperator::Divide),
            TokenType::BangEqual => Some(BinaryOperator::BangEqual),
            TokenType::Equal => Some(BinaryOperator::Equal),
            TokenType::EqualEqual => Some(BinaryOperator::Equal),
            TokenType::LessThan => Some(BinaryOperator::LessThan),
            TokenType::LessThanEqual => Some(BinaryOperator::LessThanEqual),
            TokenType::GreaterThan => Some(BinaryOperator::GreaterThan),
            TokenType::GreaterThanEqual => Some(BinaryOperator::GreaterThanEqual),
            _ => None,
        }
    }

    /// The operator that `token_type` stands for; `None` for a token type
    /// that is no binary operator.
    pub fn from_token(token_type: TokenType) -> (op: Option<BinaryOperator>)
        ensures
            op == BinaryOperator::of_token(token_type),
    {
        match token_type {
            TokenType::Minus => Some(BinaryOperator::Subtract),
            TokenType::Plus => Some(BinaryOperator::Add),
            TokenType::Star => Some(BinaryOperator::Multiply),
            TokenType::Slash => Some(BinaryOperator::Divide),
            TokenType::BangEqual => Some(BinaryOperator::BangEqual),
            TokenType::Equal => Some(BinaryOperator::Equal),
            TokenType::EqualEqual => Some(BinaryOperator::Equal),
            TokenType::LessThan => Some(BinaryOperator::LessThan),
            TokenType::LessThanEqual => Some(BinaryOperator::LessThanEqual),
            TokenType::GreaterThan => Some(BinaryOperator::GreaterThan),
            TokenType::GreaterThanEqual => Some(BinaryOperator::GreaterThanEqual),
            _ => None,
        }
    }

    /// The same operator in the second grammar.
    pub open spec fn common(self) -> crate::syntax::expr::BinaryOperator {
        match self {
            BinaryOperator::Equal => crate::syntax::expr::BinaryOperator::Equal,
            BinaryOperator::BangEqual => crate::syntax::expr::BinaryOperator::BangEqual,
            BinaryOperator::GreaterThan => crate::syntax::expr::BinaryOperator::GreaterThan,
            BinaryOperator::GreaterThanEqual => crate::syntax::expr::BinaryOperator::GreaterThanEqual,
            BinaryOperator::LessThan => crate::syntax::expr::BinaryOperator::LessThan,
            BinaryOperator::LessThanEqual => crate::syntax::expr::BinaryOperator::LessThanEqual,
            BinaryOperator::Subtract => crate::syntax::expr::BinaryOperator::Subtract,
            BinaryOperator::Add => crate::syntax::expr::BinaryOperator::Add,
            BinaryOperator::Divide => crate::syntax::expr::BinaryOperator::Divide,
            BinaryOperator::Multiply => crate::syntax::expr::BinaryOperator::Multiply,
        }
    }
}

#[derive(PartialEq, Debug)]
pub struct UnaryExpr {
    pub expr: Box<Expr>,
    pub operator: UnaryOperator,
}

impl UnaryExpr {
    pub fn new(expr: Expr, operator: UnaryOperator) -> (u: UnaryExpr)
        ensures
            *u.expr == expr,
            u.operator == operator,
    {
        UnaryExpr { expr: Box::new(expr), operator }
    }
}

#[derive(PartialEq, Eq, Structural, Debug, Clone, Copy)]
pub enum UnaryOperator {
    Negate,
    Not,
}

impl UnaryOperator {
    /// The same operator in the second grammar.
    pub open spec fn common(self) -> crate::syntax::expr::UnaryOperator {
        match self {
            UnaryOperator::Negate => crate::syntax::expr::UnaryOperator::Negate,
            UnaryOperator::Not => crate::syntax::expr::UnaryOperator::Not,
        }
    }
}

#[derive(PartialEq, Debug)]
pub struct BlockExpr {
    pub expressions: Vec<Expr>,
}

impl BlockExpr {
    pub fn new(expressions: Vec<Expr>) -> (b: BlockExpr)
        ensures
            b.expressions == expressions,
    {
        BlockExpr { expressions }
    }
}

#[derive(PartialEq, Debug)]
pub struct GroupingExpr {
    pub expr: Box<Expr>,
}

impl GroupingExpr {
    pub fn new(expr: Expr) -> (g: GroupingExpr)
        ensures
            *g.expr == expr,
    {
        GroupingExpr { expr: Box::new(expr) }
    }
}

#[derive(PartialEq, Debug)]
pub struct VarAssignExpr {
    pub variable: Variable,
    pub initializer: Expr,
}

impl VarAssignExpr {
    pub fn new(variable: Variable, initializer: Expr) -> (v: VarAssignExpr)
        ensures
            v.variable == variable,
            v.initializer == initializer,
    {
        VarAssignExpr { variable, initializer }
    }
}

#[derive(PartialEq, Debug)]
pub struct VarSetExpr {
    pub variable: Variable,
    pub initializer: Expr,
}

impl VarSetExpr {
    pub fn new(variable: Variable, initializer: Expr) -> (v: VarSetExpr)
        ensures
            v.variable == variable,
            v.initializer == initializer,
    {
        VarSetExpr { variable, initializer }
    }
}

#[derive(PartialEq, Debug)]
pub struct VarGetExpr {
    pub variable: Variable,
}

impl VarGetExpr {
    pub fn new(variable: Variable) -> (v: VarGetExpr)
        ensures
            v.variable == variable,
    {
        VarGetExpr { variable }
    }
}

#[derive(PartialEq, Debug)]
pub struct Variable {
    pub name: String,
}

impl Variable {
    pub fn new(name: String) -> (v: Variable)
        ensures
            v.name == name,
    {
        Variable { name }
    }
}

#[derive(PartialEq, Debug)]
pub struct IfExpr {
    pub condition: Expr,
    pub then_clause: Vec<Expr>,
}

impl IfExpr {
    pub fn new(condition: Expr, then_clause: Vec<Expr>) -> (i: IfExpr)
        ensures
            i.condition == condition,
            i.then_clause == then_clause,
    {
        IfExpr { condition, then_clause }
    }
}

#[derive(PartialEq, Debug)]
pub struct IfElseExpr {
    pub condition: Expr,
    pub then_clause: BlockExpr,
    pub else_clause: BlockExpr,
}

impl IfElseExpr {
    pub fn new(condition: Expr, then_clause: BlockExpr, else_clause: BlockExpr) -> (i: IfElseExpr)
        ensures
            i.condition == condition,
            i.then_clause == then_clause,
            i.else_clause == else_clause,
    {
        IfElseExpr { condition, then_clause, else_clause }
    }
}

#[derive(PartialEq, Debug)]
pub struct FunctionDeclaration {
    pub parameters: Vec<Variable>,
    pub body: BlockExpr,
}

impl FunctionDeclaration {
    pub fn new(parameters: Vec<Variable>, body: BlockExpr) -> (d: FunctionDeclaration)
        ensures
            d.parameters == parameters,
            d.body == body,
    {
        FunctionDeclaration { parameters, body }
    }
}

#[derive(PartialEq, Debug)]
pub struct FunctionExpr {
    pub variable: Variable,
    pub declaration: FunctionDeclaration,
}

impl FunctionExpr {
    pub fn new(variable: Variable, declaration: FunctionDeclaration) -> (f: FunctionExpr)
        ensures
            f.variable == variable,
            f.declaration == declaration,
    {
        FunctionExpr { variable, declaration }
    }
}

#[derive(PartialEq, Debug)]
pub struct CallExpr {
    pub callee: Expr,
    pub args: Vec<Expr>,
}

impl CallExpr {
    pub fn new(callee: Expr, args: Vec<Expr>) -> (c: CallExpr)
        ensures
            c.callee == callee,
            c.args == args,
    {
        CallExpr { callee, args }
    }
}

#[derive(PartialEq, Debug)]
pub struct ReturnExpr {
    pub expr: Option<Expr>,
}

impl ReturnExpr {
    pub fn new(expr: Option<Expr>) -> (r: ReturnExpr)
        ensures
            r.expr == expr,
    {
        ReturnExpr { expr }
    }
}

/// The views of a sequence of trees, element by element.
pub open spec fn exprs_view(es: Seq<Expr>) -> Seq<ExprView>
    decreases es, 2nat,
{
    Seq::new(
        es.len(),
        |i: int|
            if 0 <= i < es.len() {
                expr_view(es[i])
            } else {
                ExprView::Nil
            },
    )
}

/// The names of a sequence of variables.
pub open spec fn names_view(vs: Seq<Variable>) -> Seq<Seq<char>> {
    Seq::new(vs.len(), |i: int| vs[i].name@)
}

/// The view of a tree: the tree of the second grammar that means the same.
pub open spec fn expr_view(e: Expr) -> ExprView
    decreases e, 1nat,
{
    kind_view(*e.node)
}

/// The view of a node, by its kind.
pub open spec fn kind_view(k: ExprKind) -> ExprView
    decreases k, 0nat,
{
    match k {
        ExprKind::Literal(l) => match l {
            LiteralExpr::Number(n) => ExprView::Number(n),
            LiteralExpr::String(s) => ExprView::String(s@),
            LiteralExpr::True => ExprView::True,
            LiteralExpr::False => ExprView::False,
            LiteralExpr::Nil => ExprView::Nil,
        },
        ExprKind::Binary(b) => ExprView::Binary(
            Box::new(expr_view(*b.lhs)),
            Box::new(expr_view(*b.rhs)),
            b.operator.common(),
        ),
        ExprKind::Unary(u) => ExprView::Unary(Box::new(expr_view(*u.expr)), u.operator.common()),
        ExprKind::Block(b) => ExprView::Block(exprs_view(b.expressions@)),
        ExprKind::VarAssign(v) => ExprView::VarAssign(
            v.variable.name@,
            Box::new(expr_view(v.initializer)),
        ),
        ExprKind::VarSet(v) => ExprView::VarSet(v.variable.name@, Box::new(expr_view(v.initializer))),
        ExprKind::VarGet(v) => ExprView::VarGet(v.variable.name@),
        ExprKind::Print(e) => ExprView::Print(Box::new(expr_view(e))),
        ExprKind::Grouping(g) => ExprView::Grouping(Box::new(expr_view(*g.expr))),
        ExprKind::If(i) => ExprView::If(
            Box::new(expr_view(i.condition)),
            Box::new(ExprView::Sequence(exprs_view(i.then_clause@))),
        ),
        ExprKind::IfElse(i) => ExprView::IfElse(
            Box::new(expr_view(i.condition)),
            exprs_view(i.then_clause.expressions@),
            exprs_view(i.else_clause.expressions@),
        ),
        ExprKind::Function(f) => ExprView::Function(
            f.variable.name@,
            names_view(f.declaration.parameters@),
            exprs_view(f.declaration.body.expressions@),
        ),
        ExprKind::Call(c) => ExprView::Call(Box::new(expr_view(c.callee)), exprs_view(c.args@)),
        ExprKind::Return(r) => ExprView::Return(
            match r.expr {
                Some(e) => Some(Box::new(expr_view(e))),
                None => None,
            },
        ),
    }
}

impl View for Expr {
    type V = ExprView;

    open spec fn view(&self) -> ExprView {
        expr_view(*self)
    }
}

/// `exprs_view` keeps the length and maps each element to its view.
pub proof fn lemma_exprs_view(es: Seq<Expr>)
    ensures
        exprs_view(es).len() == es.len(),
        forall|i: int| 0 <= i < es.len() ==> #[trigger] exprs_view(es)[i] == es[i]@,
        forall|e: Expr| #[trigger] exprs_view(es.push(e)) == exprs_view(es).push(e@),
        es.len() == 0 ==> exprs_view(es) == Seq::<ExprView>::empty(),
{
    assert forall|e: Expr| #[trigger] exprs_view(es.push(e)) == exprs_view(es).push(e@) by {
        assert(exprs_view(es.push(e)) =~= exprs_view(es).push(e@));
    }
    if es.len() == 0 {
        assert(exprs_view(es) =~= Seq::<ExprView>::empty());
    }
}

} // verus!
