//! The grammar, as mathematics: the tree that a token sequence stands for.
//!
//! The tokens form a stack whose top, its last element, is the next token.
//! Every function here takes such a stack and gives the tree that it reads
//! from the top together with the stack that is left, or the error that
//! stops it.

use crate::error::ParserError;
use crate::syntax::expr::{BinaryOperator, ExprView, UnaryOperator};
use crate::syntax::rule::{
    infix_rule, InfixRule, Precedence, precedence_of, prefix_rule, PrefixRule,
};
use crate::syntax::token::{Keyword, TokenType, TokenView};
use vstd::prelude::*;

verus! {

/// A token as the parser reads it: with the value of its text, if it is a
/// number.
pub ghost struct Lex {
    pub token: TokenView,
    pub number: u64,
}

/// The bit pattern of the number 1, the step of a `for` loop that names
/// none.
pub const ONE: u64 = 0x3ff0_0000_0000_0000;

/// A tree and what is left of the tokens, or an error.
pub type Tree = Result<(ExprView, Seq<Lex>), ParserError>;

/// Trees and what is left of the tokens, or an error.
pub type Trees = Result<(Seq<ExprView>, Seq<Lex>), ParserError>;

/// A token and what is left of the tokens, or an error.
pub type Taken = Result<(Lex, Seq<Lex>), ParserError>;

/// The type of the next token; where none is left, that of the end token.
pub open spec fn peek_type(ts: Seq<Lex>) -> TokenType {
    if ts.len() == 0 {
        TokenType::EOF
    } else {
        ts.last().token.token_type
    }
}

/// Whether the next token has the type `ty`.
pub open spec fn check(ts: Seq<Lex>, ty: TokenType) -> bool {
    peek_type(ts) == ty
}

/// Takes the next token.
pub open spec fn take(ts: Seq<Lex>) -> Taken {
    if ts.len() == 0 {
        Err(ParserError::UnexpectedEOF)
    } else {
        Ok((ts.last(), ts.drop_last()))
    }
}

/// Takes the next token if it has the type `ty`, and says whether it did.
pub open spec fn accept(ts: Seq<Lex>, ty: TokenType) -> Result<(bool, Seq<Lex>), ParserError> {
    if !check(ts, ty) {
        Ok((false, ts))
    } else {
        match take(ts) {
            Ok((_, rest)) => Ok((true, rest)),
            Err(e) => Err(e),
        }
    }
}

/// Takes the next token, which must have the type `ty`.
pub open spec fn want(ts: Seq<Lex>, ty: TokenType) -> Taken {
    if check(ts, ty) {
        take(ts)
    } else {
        Err(ParserError::Expect(ty, peek_type(ts)))
    }
}

/// The tokens behind the line breaks at the top.
pub open spec fn skip_lines(ts: Seq<Lex>) -> Seq<Lex>
    decreases ts.len(),
{
    if ts.len() > 0 && check(ts, TokenType::Line) {
        skip_lines(ts.drop_last())
    } else {
        ts
    }
}

/// A module: statements, with any line breaks before them, up to the end
/// token.
pub open spec fn module(ts: Seq<Lex>, done: Seq<ExprView>) -> Result<Seq<ExprView>, ParserError>
    decreases ts.len(), 10nat,
{
    match accept(ts, TokenType::EOF) {
        Err(e) => Err(e),
        Ok((true, _)) => Ok(done),
        Ok((false, _)) => {
            let start = skip_lines(ts);
            if start.len() > ts.len() {
                Err(ParserError::UnexpectedEOF)
            } else {
                match top_level(start) {
                    Err(e) => Err(e),
                    Ok((e, rest)) => if rest.len() >= ts.len() {
                        Err(ParserError::UnexpectedEOF)
                    } else {
                        module(rest, done.push(e))
                    },
                }
            }
        },
    }
}

/// A statement: what its first token announces, and else an expression
/// that ends with the line.
pub open spec fn top_level(ts: Seq<Lex>) -> Tree
    decreases ts.len(), 8nat,
{
    match peek_type(ts) {
        TokenType::Keyword(Keyword::Import) => import(ts),
        TokenType::Keyword(Keyword::Print) => print(ts),
        TokenType::Keyword(Keyword::Def) => def(ts),
        TokenType::Keyword(Keyword::Var) => var(ts),
        TokenType::Keyword(Keyword::If) => conditional(ts),
        TokenType::Keyword(Keyword::While) => while_loop(ts),
        TokenType::Keyword(Keyword::For) => for_loop(ts),
        TokenType::Keyword(Keyword::Return) => return_statement(ts),
        TokenType::Keyword(Keyword::Do) => block(ts),
        _ => expression_statement(ts),
    }
}

/// The texts of the tokens up to the next line break, one behind the
/// other: the path of a module.
pub open spec fn path(ts: Seq<Lex>, done: Seq<char>) -> Result<(Seq<char>, Seq<Lex>), ParserError>
    decreases ts.len(),
{
    match accept(ts, TokenType::Line) {
        Err(e) => Err(e),
        Ok((true, rest)) => Ok((done, rest)),
        Ok((false, _)) => match take(ts) {
            Err(e) => Err(e),
            Ok((t, rest)) => path(rest, done + t.token.source),
        },
    }
}

/// `import` and the path of a module.
pub open spec fn import(ts: Seq<Lex>) -> Tree {
    match want(ts, TokenType::Keyword(Keyword::Import)) {
        Err(e) => Err(e),
        Ok((_, r1)) => match path(r1, Seq::empty()) {
            Err(e) => Err(e),
            Ok((module, rest)) => Ok((ExprView::Import(module), rest)),
        },
    }
}

/// `print` and an expression that ends with the line.
pub open spec fn print(ts: Seq<Lex>) -> Tree
    decreases ts.len(), 7nat,
{
    match want(ts, TokenType::Keyword(Keyword::Print)) {
        Err(e) => Err(e),
        Ok((_, r1)) => match expression_statement(r1) {
            Err(e) => Err(e),
            Ok((e, rest)) => Ok((ExprView::Print(Box::new(e)), rest)),
        },
    }
}

/// The names between the parentheses of a declaration, with commas between
/// them.
pub open spec fn parameters(ts: Seq<Lex>, done: Seq<Seq<char>>) -> Result<
    (Seq<Seq<char>>, Seq<Lex>),
    ParserError,
>
    decreases ts.len(),
{
    if check(ts, TokenType::RightParen) || check(ts, TokenType::EOF) {
        Ok((done, ts))
    } else {
        match want(ts, TokenType::Identifier) {
            Err(e) => Err(e),
            Ok((name, r1)) => if check(r1, TokenType::Comma) {
                match take(r1) {
                    Err(e) => Err(e),
                    Ok((_, r2)) => parameters(r2, done.push(name.token.source)),
                }
            } else {
                Ok((done.push(name.token.source), r1))
            },
        }
    }
}

/// `def`, a name, the parameters in parentheses, and a block.
pub open spec fn def(ts: Seq<Lex>) -> Tree
    decreases ts.len(), 7nat,
{
    match take(ts) {
        Err(e) => Err(e),
        Ok((_, r1)) => match want(r1, TokenType::Identifier) {
            Err(e) => Err(e),
            Ok((name, r2)) => match want(r2, TokenType::LeftParen) {
                Err(e) => Err(e),
                Ok((_, r3)) => match parameters(r3, Seq::empty()) {
                    Err(e) => Err(e),
                    Ok((names, r4)) => match want(r4, TokenType::RightParen) {
                        Err(e) => Err(e),
                        Ok((_, r5)) => if r5.len() >= ts.len() {
                            Err(ParserError::UnexpectedEOF)
                        } else {
                            match statements_in_block(r5) {
                                Err(e) => Err(e),
                                Ok((body, rest)) => Ok(
                                    (ExprView::Function(name.token.source, names, body), rest),
                                ),
                            }
                        },
                    },
                },
            },
        },
    }
}

/// `var`, a name and then either `=` and an expression that ends with the
/// line, or the end of the line: then the variable starts as nil.
pub open spec fn var(ts: Seq<Lex>) -> Tree
    decreases ts.len(), 7nat,
{
    match take(ts) {
        Err(e) => Err(e),
        Ok((_, r1)) => match want(r1, TokenType::Identifier) {
            Err(e) => Err(e),
            Ok((name, r2)) => match accept(r2, TokenType::Equal) {
                Err(e) => Err(e),
                Ok((true, r3)) => match expression_statement(r3) {
                    Err(e) => Err(e),
                    Ok((e, rest)) => Ok(
                        (ExprView::VarAssign(name.token.source, Box::new(e)), rest),
                    ),
                },
                Ok((false, r3)) => match want(r3, TokenType::Line) {
                    Err(e) => Err(e),
                    Ok((_, rest)) => Ok(
                        (ExprView::VarAssign(name.token.source, Box::new(ExprView::Nil)), rest),
                    ),
                },
            },
        },
    }
}

/// Whether the statements of an arm or a block end before the next token.
pub open spec fn closes(ts: Seq<Lex>, at_else: bool) -> bool {
    check(ts, TokenType::Keyword(Keyword::End)) || check(ts, TokenType::EOF) || (at_else && check(
        ts,
        TokenType::Keyword(Keyword::Else),
    ))
}

/// Statements up to `end`, and up to `else` where `at_else` says so.
pub open spec fn statements(ts: Seq<Lex>, done: Seq<ExprView>, at_else: bool) -> Trees
    decreases ts.len(), 9nat,
{
    if closes(ts, at_else) {
        Ok((done, ts))
    } else {
        match top_level(ts) {
            Err(e) => Err(e),
            Ok((e, rest)) => if rest.len() >= ts.len() {
                Err(ParserError::UnexpectedEOF)
            } else {
                statements(rest, done.push(e), at_else)
            },
        }
    }
}

/// The statements of a block: behind the token that opens it, whatever it
/// is, and an optional line break, up to `end` and the end of the line.
pub open spec fn statements_in_block(ts: Seq<Lex>) -> Trees
    decreases ts.len(), 6nat,
{
    match take(ts) {
        Err(e) => Err(e),
        Ok((_, r1)) => match accept(r1, TokenType::Line) {
            Err(e) => Err(e),
            Ok((_, r2)) => if r2.len() >= ts.len() {
                Err(ParserError::UnexpectedEOF)
            } else {
                match statements(r2, Seq::empty(), false) {
                    Err(e) => Err(e),
                    Ok((body, r3)) => match want(r3, TokenType::Keyword(Keyword::End)) {
                        Err(e) => Err(e),
                        Ok((_, r4)) => match want(r4, TokenType::Line) {
                            Err(e) => Err(e),
                            Ok((_, rest)) => Ok((body, rest)),
                        },
                    },
                }
            },
        },
    }
}

/// A block.
pub open spec fn block(ts: Seq<Lex>) -> Tree
    decreases ts.len(), 7nat,
{
    match statements_in_block(ts) {
        Err(e) => Err(e),
        Ok((body, rest)) => Ok((ExprView::Block(body), rest)),
    }
}

/// The first arm of a conditional: like a block, but `else` may end it in
/// place of `end`. The flag says whether `else` did.
pub open spec fn arm(ts: Seq<Lex>) -> Result<(Seq<ExprView>, bool, Seq<Lex>), ParserError>
    decreases ts.len(), 6nat,
{
    match take(ts) {
        Err(e) => Err(e),
        Ok((_, r1)) => match accept(r1, TokenType::Line) {
            Err(e) => Err(e),
            Ok((_, r2)) => if r2.len() >= ts.len() {
                Err(ParserError::UnexpectedEOF)
            } else {
                match statements(r2, Seq::empty(), true) {
                    Err(e) => Err(e),
                    Ok((body, r3)) => if check(r3, TokenType::Keyword(Keyword::Else)) {
                        match take(r3) {
                            Err(e) => Err(e),
                            Ok((_, rest)) => Ok((body, true, rest)),
                        }
                    } else {
                        match want(r3, TokenType::Keyword(Keyword::End)) {
                            Err(e) => Err(e),
                            Ok((_, r4)) => match want(r4, TokenType::Line) {
                                Err(e) => Err(e),
                                Ok((_, rest)) => Ok((body, false, rest)),
                            },
                        }
                    },
                }
            },
        },
    }
}

/// `if`, a condition, an arm, and behind `else` a block.
pub open spec fn conditional(ts: Seq<Lex>) -> Tree
    decreases ts.len(), 7nat,
{
    match take(ts) {
        Err(e) => Err(e),
        Ok((_, r1)) => match expression(r1) {
            Err(e) => Err(e),
            Ok((condition, r2)) => if r2.len() >= ts.len() {
                Err(ParserError::UnexpectedEOF)
            } else {
                match arm(r2) {
                    Err(e) => Err(e),
                    Ok((then, false, rest)) => Ok(
                        (
                            ExprView::If(Box::new(condition), Box::new(ExprView::Sequence(then))),
                            rest,
                        ),
                    ),
                    Ok((then, true, r3)) => if r3.len() >= ts.len() {
                        Err(ParserError::UnexpectedEOF)
                    } else {
                        match statements_in_block(r3) {
                            Err(e) => Err(e),
                            Ok((otherwise, rest)) => Ok(
                                (ExprView::IfElse(Box::new(condition), then, otherwise), rest),
                            ),
                        }
                    },
                }
            },
        },
    }
}

/// `while`, a condition and a block.
pub open spec fn while_loop(ts: Seq<Lex>) -> Tree
    decreases ts.len(), 7nat,
{
    match want(ts, TokenType::Keyword(Keyword::While)) {
        Err(e) => Err(e),
        Ok((_, r1)) => match expression(r1) {
            Err(e) => Err(e),
            Ok((condition, r2)) => if r2.len() >= ts.len() {
                Err(ParserError::UnexpectedEOF)
            } else {
                match block(r2) {
                    Err(e) => Err(e),
                    Ok((body, rest)) => Ok(
                        (ExprView::While(Box::new(condition), Box::new(body)), rest),
                    ),
                }
            },
        },
    }
}

/// The loop that `for x in a to b step s` and a block stand for: `x`
/// starts as `a`; while `x` is less than `b`, the block runs and then `x`
/// grows by `s`. With `downTo`, `x` shrinks while it is greater.
pub open spec fn counting_loop(
    name: Seq<char>,
    from: u64,
    compare: BinaryOperator,
    to: u64,
    step: u64,
    body: ExprView,
) -> ExprView {
    let x = ExprView::VarGet(name);
    let change = if compare == BinaryOperator::LessThan {
        BinaryOperator::Add
    } else {
        BinaryOperator::Subtract
    };
    ExprView::Sequence(
        seq![
            ExprView::VarAssign(name, Box::new(ExprView::Number(from))),
            ExprView::While(
                Box::new(ExprView::Binary(Box::new(x), Box::new(ExprView::Number(to)), compare)),
                Box::new(
                    ExprView::Sequence(
                        seq![
                            body,
                            ExprView::VarSet(
                                name,
                                Box::new(
                                    ExprView::Binary(
                                        Box::new(x),
                                        Box::new(ExprView::Number(step)),
                                        change,
                                    ),
                                ),
                            ),
                        ],
                    ),
                ),
            ),
        ],
    )
}

/// The step of a `for` loop: the number behind `step`, and 1 where no
/// `step` stands.
pub open spec fn step(ts: Seq<Lex>) -> Result<(u64, Seq<Lex>), ParserError> {
    match accept(ts, TokenType::Keyword(Keyword::Step)) {
        Err(e) => Err(e),
        Ok((false, rest)) => Ok((ONE, rest)),
        Ok((true, r1)) => match want(r1, TokenType::Number) {
            Err(e) => Err(e),
            Ok((n, rest)) => Ok((n.number, rest)),
        },
    }
}

/// `for`, a name, `in`, a number, `to` or `downTo`, a number, an optional
/// step, and a block.
pub open spec fn for_loop(ts: Seq<Lex>) -> Tree
    decreases ts.len(), 7nat,
{
    match want(ts, TokenType::Keyword(Keyword::For)) {
        Err(e) => Err(e),
        Ok((_, r1)) => match want(r1, TokenType::Identifier) {
            Err(e) => Err(e),
            Ok((name, r2)) => match want(r2, TokenType::Keyword(Keyword::In)) {
                Err(e) => Err(e),
                Ok((_, r3)) => match want(r3, TokenType::Number) {
                    Err(e) => Err(e),
                    Ok((from, r4)) => if !check(r4, TokenType::Keyword(Keyword::To)) && !check(
                        r4,
                        TokenType::Keyword(Keyword::DownTo),
                    ) {
                        Err(ParserError::Expect(TokenType::Keyword(Keyword::To), peek_type(r4)))
                    } else {
                        let compare = if check(r4, TokenType::Keyword(Keyword::To)) {
                            BinaryOperator::LessThan
                        } else {
                            BinaryOperator::GreaterThan
                        };
                        match take(r4) {
                            Err(e) => Err(e),
                            Ok((_, r5)) => match want(r5, TokenType::Number) {
                                Err(e) => Err(e),
                                Ok((to, r6)) => match step(r6) {
                                    Err(e) => Err(e),
                                    Ok((by, r7)) => if r7.len() >= ts.len() {
                                        Err(ParserError::UnexpectedEOF)
                                    } else {
                                        match block(r7) {
                                            Err(e) => Err(e),
                                            Ok((body, rest)) => Ok(
                                                (
                                                    counting_loop(
                                                        name.token.source,
                                                        from.number,
                                                        compare,
                                                        to.number,
                                                        by,
                                                        body,
                                                    ),
                                                    rest,
                                                ),
                                            ),
                                        }
                                    },
                                },
                            },
                        }
                    },
                },
            },
        },
    }
}

/// `return` and then either the end of the line, or a statement whose
/// value is returned.
pub open spec fn return_statement(ts: Seq<Lex>) -> Tree
    decreases ts.len(), 7nat,
{
    match want(ts, TokenType::Keyword(Keyword::Return)) {
        Err(e) => Err(e),
        Ok((_, r1)) => match accept(r1, TokenType::Line) {
            Err(e) => Err(e),
            Ok((true, rest)) => Ok((ExprView::Return(None), rest)),
            Ok((false, r2)) => if r2.len() >= ts.len() {
                Err(ParserError::UnexpectedEOF)
            } else {
                match top_level(r2) {
                    Err(e) => Err(e),
                    Ok((e, rest)) => Ok((ExprView::Return(Some(Box::new(e))), rest)),
                }
            },
        },
    }
}

/// An expression and the end of the line.
pub open spec fn expression_statement(ts: Seq<Lex>) -> Tree
    decreases ts.len(), 3nat,
{
    match expression(ts) {
        Err(e) => Err(e),
        Ok((e, r1)) => match want(r1, TokenType::Line) {
            Err(e) => Err(e),
            Ok((_, rest)) => Ok((e, rest)),
        },
    }
}

/// An expression.
pub open spec fn expression(ts: Seq<Lex>) -> Tree
    decreases ts.len(), 2nat,
{
    precedence(ts, Precedence::Assignment.rank())
}

/// An expression of operators that bind tighter than `level`: what the
/// first token starts, and then what follows it.
pub open spec fn precedence(ts: Seq<Lex>, level: u8) -> Tree
    decreases ts.len(), 1nat,
{
    match take(ts) {
        Err(e) => Err(e),
        Ok((first, r1)) => match prefix_rule(first.token.token_type) {
            None => Err(ParserError::UnexpectedToken(first.token.token_type)),
            Some(rule) => match prefix(rule, r1, first) {
                Err(e) => Err(e),
                Ok((left, r2)) => if r2.len() >= ts.len() {
                    Err(ParserError::UnexpectedEOF)
                } else {
                    infix(r2, left, level)
                },
            },
        },
    }
}

/// What follows the expression `left`: operators that bind tighter than
/// `level`, each with what it takes.
pub open spec fn infix(ts: Seq<Lex>, left: ExprView, level: u8) -> Tree
    decreases ts.len(), 6nat,
{
    if ts.len() == 0 || level >= precedence_of(ts.last().token.token_type).rank() {
        Ok((left, ts))
    } else {
        match infix_rule(ts.last().token.token_type) {
            None => infix(ts.drop_last(), left, level),
            Some(rule) => match continued(rule, ts.drop_last(), left, ts.last()) {
                Err(e) => Err(e),
                Ok((next, rest)) => if rest.len() >= ts.len() {
                    Err(ParserError::UnexpectedEOF)
                } else {
                    infix(rest, next, level)
                },
            },
        }
    }
}

/// The literal that a token is.
pub open spec fn literal(first: Lex) -> ExprView {
    match first.token.token_type {
        TokenType::Number => ExprView::Number(first.number),
        TokenType::String => ExprView::String(first.token.source),
        TokenType::Keyword(Keyword::True) => ExprView::True,
        _ => ExprView::False,
    }
}

/// The operator that a token at the start of an expression is.
pub open spec fn unary_operator(ty: TokenType) -> UnaryOperator {
    if ty == TokenType::Minus {
        UnaryOperator::Negate
    } else {
        UnaryOperator::Not
    }
}

/// The expression that the token `first` starts, by its rule.
pub open spec fn prefix(rule: PrefixRule, ts: Seq<Lex>, first: Lex) -> Tree
    decreases ts.len(), 5nat,
{
    match rule {
        PrefixRule::Literal(_) => Ok((literal(first), ts)),
        PrefixRule::Grouping(_) => match expression(ts) {
            Err(e) => Err(e),
            Ok((e, r1)) => match want(r1, TokenType::RightParen) {
                Err(e) => Err(e),
                Ok((_, rest)) => Ok((ExprView::Grouping(Box::new(e)), rest)),
            },
        },
        PrefixRule::Identifier(_) => match accept(ts, TokenType::Equal) {
            Err(e) => Err(e),
            Ok((false, rest)) => Ok((ExprView::VarGet(first.token.source), rest)),
            Ok((true, r1)) => if r1.len() > ts.len() {
                Err(ParserError::UnexpectedEOF)
            } else {
                match expression(r1) {
                    Err(e) => Err(e),
                    Ok((e, rest)) => Ok((ExprView::VarSet(first.token.source, Box::new(e)), rest)),
                }
            },
        },
        PrefixRule::Unary(_) => match expression(ts) {
            Err(e) => Err(e),
            Ok((e, rest)) => Ok(
                (ExprView::Unary(Box::new(e), unary_operator(first.token.token_type)), rest),
            ),
        },
        PrefixRule::Array(_) => match items(ts, Seq::empty()) {
            Err(e) => Err(e),
            Ok((es, rest)) => Ok((ExprView::Array(Some(es)), rest)),
        },
    }
}

/// The elements of an array literal up to and with `]`: expressions with
/// commas between them, and an optional comma behind the last.
pub open spec fn items(ts: Seq<Lex>, done: Seq<ExprView>) -> Trees
    decreases ts.len(), 4nat,
{
    match accept(ts, TokenType::RightBracket) {
        Err(e) => Err(e),
        Ok((true, rest)) => Ok((done, rest)),
        Ok((false, _)) => match precedence(ts, Precedence::Or.rank()) {
            Err(e) => Err(e),
            Ok((e, r1)) => match accept(r1, TokenType::Comma) {
                Err(e) => Err(e),
                Ok((true, r2)) => if r2.len() >= ts.len() {
                    Err(ParserError::UnexpectedEOF)
                } else {
                    items(r2, done.push(e))
                },
                Ok((false, r2)) => match want(r2, TokenType::RightBracket) {
                    Err(e) => Err(e),
                    Ok((_, rest)) => Ok((done.push(e), rest)),
                },
            },
        }
    }
}

/// The arguments of a call behind the first: each behind a comma.
pub open spec fn arguments(ts: Seq<Lex>, done: Seq<ExprView>) -> Trees
    decreases ts.len(), 4nat,
{
    match accept(ts, TokenType::Comma) {
        Err(e) => Err(e),
        Ok((false, rest)) => Ok((done, rest)),
        Ok((true, r1)) => if r1.len() >= ts.len() {
            Err(ParserError::UnexpectedEOF)
        } else {
            match expression(r1) {
                Err(e) => Err(e),
                Ok((e, r2)) => if r2.len() >= ts.len() {
                    Err(ParserError::UnexpectedEOF)
                } else {
                    arguments(r2, done.push(e))
                },
            }
        },
    }
}

/// The expression that the token `op` makes of the expression `left` and
/// of what follows, by its rule.
pub open spec fn continued(rule: InfixRule, ts: Seq<Lex>, left: ExprView, op: Lex) -> Tree
    decreases ts.len(), 5nat,
{
    match rule {
        InfixRule::Operator(p) => match precedence(ts, p.precedence.rank()) {
            Err(e) => Err(e),
            Ok((right, rest)) => match BinaryOperator::of_token(op.token.token_type) {
                Some(operator) => Ok(
                    (ExprView::Binary(Box::new(left), Box::new(right), operator), rest),
                ),
                None => Err(ParserError::UnexpectedToken(op.token.token_type)),
            },
        },
        InfixRule::Call(_) => if check(ts, TokenType::RightParen) {
            match want(ts, TokenType::RightParen) {
                Err(e) => Err(e),
                Ok((_, rest)) => Ok((ExprView::Call(Box::new(left), Seq::empty()), rest)),
            }
        } else {
            match expression(ts) {
                Err(e) => Err(e),
                Ok((first, r1)) => if r1.len() > ts.len() {
                    Err(ParserError::UnexpectedEOF)
                } else {
                    match arguments(r1, seq![first]) {
                        Err(e) => Err(e),
                        Ok((args, r2)) => match want(r2, TokenType::RightParen) {
                            Err(e) => Err(e),
                            Ok((_, rest)) => Ok((ExprView::Call(Box::new(left), args), rest)),
                        },
                    }
                },
            }
        },
        InfixRule::Subscript(_) => match precedence(ts, Precedence::Or.rank()) {
            Err(e) => Err(e),
            Ok((index, r1)) => match want(r1, TokenType::RightBracket) {
                Err(e) => Err(e),
                Ok((_, r2)) => match accept(r2, TokenType::Equal) {
                    Err(e) => Err(e),
                    Ok((false, rest)) => Ok(
                        (ExprView::Subscript(Box::new(left), Box::new(index), None), rest),
                    ),
                    Ok((true, r3)) => if r3.len() > ts.len() {
                        Err(ParserError::UnexpectedEOF)
                    } else {
                        match expression(r3) {
                            Err(e) => Err(e),
                            Ok((value, rest)) => Ok(
                                (
                                    ExprView::Subscript(
                                        Box::new(left),
                                        Box::new(index),
                                        Some(Box::new(value)),
                                    ),
                                    rest,
                                ),
                            ),
                        }
                    },
                },
            },
        },
        InfixRule::Dot(_) => match want(ts, TokenType::Identifier) {
            Err(e) => Err(e),
            Ok((property, r1)) => match accept(r1, TokenType::Equal) {
                Err(e) => Err(e),
                Ok((false, rest)) => Ok(
                    (ExprView::GetProperty(Box::new(left), property.token.source), rest),
                ),
                Ok((true, r2)) => if r2.len() > ts.len() {
                    Err(ParserError::UnexpectedEOF)
                } else {
                    match expression(r2) {
                        Err(e) => Err(e),
                        Ok((value, rest)) => Ok(
                            (
                                ExprView::SetProperty(
                                    Box::new(left),
                                    Box::new(value),
                                    property.token.source,
                                ),
                                rest,
                            ),
                        ),
                    }
                },
            },
        },
    }
}

} // verus!
