//! The first grammar, as mathematics: the tree that a token sequence
//! stands for.
//!
//! The tokens form a stack whose top, its last element, is the next token.
//! Every function here takes such a stack and gives the tree that it reads
//! from the top together with the stack that is left, or the error that
//! stops it. The trees are written as those of the second grammar that mean
//! the same.

use crate::parser::ast::expr::BinaryOperator;
use crate::parser::rule::{
    infix_rule, InfixRule, Precedence, precedence_of, prefix_rule, PrefixRule,
};
use crate::scanner::token::{Keyword, TokenType, TokenView};
use crate::syntax::expr::{ExprView, UnaryOperator};
use vstd::prelude::*;

verus! {

/// A token as the parser reads it: with the value of its text, if it is a
/// number.
pub ghost struct Lex {
    pub token: TokenView,
    pub number: u64,
}

/// Why the parser rejected a source text.
#[derive(Debug, Clone, Copy, PartialEq, Eq, Structural)]
pub enum Failure {
    /// No expression starts with this token.
    UnexpectedToken(TokenType),
    /// The first token type was needed where the second was found.
    Expect(TokenType, TokenType),
    /// A token was needed and none is left.
    UnexpectedEOF,
    /// The source holds a character that starts no token.
    UnexpectedChar(char),
    /// The source ends inside a string.
    UnterminatedString,
}

/// A tree and what is left of the tokens, or an error.
pub type Tree = Result<(ExprView, Seq<Lex>), Failure>;

/// Trees and what is left of the tokens, or an error.
pub type Trees = Result<(Seq<ExprView>, Seq<Lex>), Failure>;

/// A token and what is left of the tokens, or an error.
pub type Taken = Result<(Lex, Seq<Lex>), Failure>;

/// The type of the next token; where none is left, that of the end token.
pub open spec fn peek_type(ts: Seq<Lex>) -> TokenType {
    if ts.len() == 0 {
        TokenType::EOF
    } else {
        ts.last().token.token_type
    }
}

/// Whether the next token has the type `ty`.
pub open spec fn check(ts: Seq<Lex>, ty: TokenType) -> bool {
    peek_type(ts) == ty
}

/// Takes the next token.
pub open spec fn take(ts: Seq<Lex>) -> Taken {
    if ts.len() == 0 {
        Err(Failure::UnexpectedEOF)
    } else {
        Ok((ts.last(), ts.drop_last()))
    }
}

/// Takes the next token, which must have the type `ty`.
pub open spec fn want(ts: Seq<Lex>, ty: TokenType) -> Taken {
    if check(ts, ty) {
        take(ts)
    } else {
        Err(Failure::Expect(ty, peek_type(ts)))
    }
}

/// The tokens behind the line breaks at the top.
pub open spec fn skip_lines(ts: Seq<Lex>) -> Seq<Lex>
    decreases ts.len(),
{
    if ts.len() > 0 && check(ts, TokenType::Line) {
        skip_lines(ts.drop_last())
    } else {
        ts
    }
}

/// A module: statements, each behind any line breaks and, unless the end
/// token follows it, with a line break behind it, up to the end token.
pub open spec fn module(ts: Seq<Lex>, done: Seq<ExprView>) -> Result<Seq<ExprView>, Failure>
    decreases ts.len(), 10nat,
{
    if check(ts, TokenType::EOF) {
        Ok(done)
    } else {
        let start = skip_lines(ts);
        if start.len() > ts.len() {
            Err(Failure::UnexpectedEOF)
        } else {
            match top_level(start) {
                Err(e) => Err(e),
                Ok((e, r1)) => if r1.len() >= ts.len() {
                    Err(Failure::UnexpectedEOF)
                } else if check(r1, TokenType::EOF) {
                    Ok(done.push(e))
                } else {
                    match want(r1, TokenType::Line) {
                        Err(e) => Err(e),
                        Ok((_, r2)) => module(r2, done.push(e)),
                    }
                },
            }
        }
    }
}

/// A statement: what its first token announces, and else an expression.
pub open spec fn top_level(ts: Seq<Lex>) -> Tree
    decreases ts.len(), 8nat,
{
    match peek_type(ts) {
        TokenType::Keyword(Keyword::Print) => print(ts),
        TokenType::Keyword(Keyword::Def) => def(ts),
        TokenType::Keyword(Keyword::Var) => var(ts),
        TokenType::Keyword(Keyword::Do) => do_block(ts),
        TokenType::Keyword(Keyword::If) => conditional(ts),
        TokenType::Keyword(Keyword::Return) => return_statement(ts),
        _ => expression(ts),
    }
}

/// `print` and an expression.
pub open spec fn print(ts: Seq<Lex>) -> Tree
    decreases ts.len(), 7nat,
{
    match want(ts, TokenType::Keyword(Keyword::Print)) {
        Err(e) => Err(e),
        Ok((_, r1)) => match expression(r1) {
            Err(e) => Err(e),
            Ok((e, rest)) => Ok((ExprView::Print(Box::new(e)), rest)),
        },
    }
}

/// The names between the parentheses of a declaration, with commas between
/// them.
pub open spec fn parameters(ts: Seq<Lex>, done: Seq<Seq<char>>) -> Result<
    (Seq<Seq<char>>, Seq<Lex>),
    Failure,
>
    decreases ts.len(),
{
    if check(ts, TokenType::RightParen) || check(ts, TokenType::EOF) {
        Ok((done, ts))
    } else {
        match want(ts, TokenType::Identifier) {
            Err(e) => Err(e),
            Ok((name, r1)) => if check(r1, TokenType::Comma) {
                match take(r1) {
                    Err(e) => Err(e),
                    Ok((_, r2)) => parameters(r2, done.push(name.token.source)),
                }
            } else {
                Ok((done.push(name.token.source), r1))
            },
        }
    }
}

/// `def`, a name, the parameters in parentheses, the end of the line, and
/// statements up to `end`.
pub open spec fn def(ts: Seq<Lex>) -> Tree
    decreases ts.len(), 7nat,
{
    match want(ts, TokenType::Keyword(Keyword::Def)) {
        Err(e) => Err(e),
        Ok((_, r1)) => match want(r1, TokenType::Identifier) {
            Err(e) => Err(e),
            Ok((name, r2)) => match want(r2, TokenType::LeftParen) {
                Err(e) => Err(e),
                Ok((_, r3)) => match parameters(r3, Seq::empty()) {
                    Err(e) => Err(e),
                    Ok((names, r4)) => match want(r4, TokenType::RightParen) {
                        Err(e) => Err(e),
                        Ok((_, r5)) => match want(r5, TokenType::Line) {
                            Err(e) => Err(e),
                            Ok((_, r6)) => if r6.len() >= ts.len() {
                                Err(Failure::UnexpectedEOF)
                            } else {
                                match statements_to_end(r6, Seq::empty(), false) {
                                    Err(e) => Err(e),
                                    Ok((body, r7)) => match want(
                                        r7,
                                        TokenType::Keyword(Keyword::End),
                                    ) {
                                        Err(e) => Err(e),
                                        Ok((_, rest)) => Ok(
                                            (
                                                ExprView::Function(name.token.source, names, body),
                                                rest,
                                            ),
                                        ),
                                    },
                                }
                            },
                        },
                    },
                },
            },
        },
    }
}

/// `var`, a name and, behind `=`, an expression; the variable starts as
/// nil where no `=` follows.
pub open spec fn var(ts: Seq<Lex>) -> Tree
    decreases ts.len(), 7nat,
{
    match want(ts, TokenType::Keyword(Keyword::Var)) {
        Err(e) => Err(e),
        Ok((_, r1)) => match want(r1, TokenType::Identifier) {
            Err(e) => Err(e),
            Ok((name, r2)) => if check(r2, TokenType::Equal) {
                match take(r2) {
                    Err(e) => Err(e),
                    Ok((_, r3)) => match expression(r3) {
                        Err(e) => Err(e),
                        Ok((e, rest)) => Ok(
                            (ExprView::VarAssign(name.token.source, Box::new(e)), rest),
                        ),
                    },
                }
            } else {
                Ok((ExprView::VarAssign(name.token.source, Box::new(ExprView::Nil)), r2))
            },
        },
    }
}

/// Statements, each with the end of its line, up to `end`, and up to
/// `else` where `at_else` says so.
pub open spec fn statements_to_end(ts: Seq<Lex>, done: Seq<ExprView>, at_else: bool) -> Trees
    decreases ts.len(), 9nat,
{
    if check(ts, TokenType::Keyword(Keyword::End)) || (at_else && check(
        ts,
        TokenType::Keyword(Keyword::Else),
    )) {
        Ok((done, ts))
    } else {
        match top_level(ts) {
            Err(e) => Err(e),
            Ok((e, r1)) => match want(r1, TokenType::Line) {
                Err(e) => Err(e),
                Ok((_, rest)) => if rest.len() >= ts.len() {
                    Err(Failure::UnexpectedEOF)
                } else {
                    statements_to_end(rest, done.push(e), at_else)
                },
            },
        }
    }
}

/// Statements up to `end`, and `end`.
pub open spec fn block(ts: Seq<Lex>) -> Tree
    decreases ts.len(), 10nat,
{
    match statements_to_end(ts, Seq::empty(), false) {
        Err(e) => Err(e),
        Ok((body, r1)) => match want(r1, TokenType::Keyword(Keyword::End)) {
            Err(e) => Err(e),
            Ok((_, rest)) => Ok((ExprView::Block(body), rest)),
        },
    }
}

/// `do`, the end of the line, and a block.
pub open spec fn do_block(ts: Seq<Lex>) -> Tree
    decreases ts.len(), 7nat,
{
    match want(ts, TokenType::Keyword(Keyword::Do)) {
        Err(e) => Err(e),
        Ok((_, r1)) => match want(r1, TokenType::Line) {
            Err(e) => Err(e),
            Ok((_, r2)) => block(r2),
        },
    }
}

/// `if`, a condition, `then`, the end of the line, statements, and then
/// either `end`, or `else`, the end of the line and a block.
pub open spec fn conditional(ts: Seq<Lex>) -> Tree
    decreases ts.len(), 7nat,
{
    match want(ts, TokenType::Keyword(Keyword::If)) {
        Err(e) => Err(e),
        Ok((_, r1)) => match expression(r1) {
            Err(e) => Err(e),
            Ok((condition, r2)) => match want(r2, TokenType::Keyword(Keyword::Then)) {
                Err(e) => Err(e),
                Ok((_, r3)) => match want(r3, TokenType::Line) {
                    Err(e) => Err(e),
                    Ok((_, r4)) => if r4.len() >= ts.len() {
                        Err(Failure::UnexpectedEOF)
                    } else {
                        match statements_to_end(r4, Seq::empty(), true) {
                            Err(e) => Err(e),
                            Ok((then, r5)) => if check(r5, TokenType::Keyword(Keyword::Else)) {
                                match take(r5) {
                                    Err(e) => Err(e),
                                    Ok((_, r6)) => match want(r6, TokenType::Line) {
                                        Err(e) => Err(e),
                                        Ok((_, r7)) => if r7.len() >= ts.len() {
                                            Err(Failure::UnexpectedEOF)
                                        } else {
                                            match statements_to_end(r7, Seq::empty(), false) {
                                                Err(e) => Err(e),
                                                Ok((otherwise, r8)) => match want(
                                                    r8,
                                                    TokenType::Keyword(Keyword::End),
                                                ) {
                                                    Err(e) => Err(e),
                                                    Ok((_, rest)) => Ok(
                                                        (
                                                            ExprView::IfElse(
                                                                Box::new(condition),
                                                                then,
                                                                otherwise,
                                                            ),
                                                            rest,
                                                        ),
                                                    ),
                                                },
                                            }
                                        },
                                    },
                                }
                            } else {
                                match want(r5, TokenType::Keyword(Keyword::End)) {
                                    Err(e) => Err(e),
                                    Ok((_, rest)) => Ok(
                                        (
                                            ExprView::If(
                                                Box::new(condition),
                                                Box::new(ExprView::Sequence(then)),
                                            ),
                                            rest,
                                        ),
                                    ),
                                }
                            },
                        }
                    },
                },
            },
        },
    }
}

/// `return` and, unless the line ends there, a statement whose value is
/// returned.
pub open spec fn return_statement(ts: Seq<Lex>) -> Tree
    decreases ts.len(), 7nat,
{
    match want(ts, TokenType::Keyword(Keyword::Return)) {
        Err(e) => Err(e),
        Ok((_, r1)) => if check(r1, TokenType::Line) {
            Ok((ExprView::Return(None), r1))
        } else {
            match top_level(r1) {
                Err(e) => Err(e),
                Ok((e, rest)) => Ok((ExprView::Return(Some(Box::new(e))), rest)),
            }
        },
    }
}

/// An expression.
pub open spec fn expression(ts: Seq<Lex>) -> Tree
    decreases ts.len(), 2nat,
{
    precedence(ts, Precedence::Lowest.rank())
}

/// An expression of operators that bind tighter than `level`: what the
/// first token starts, and then what follows it.
pub open spec fn precedence(ts: Seq<Lex>, level: u8) -> Tree
    decreases ts.len(), 1nat,
{
    match take(ts) {
        Err(e) => Err(e),
        Ok((first, r1)) => match prefix_rule(first.token.token_type) {
            None => Err(Failure::UnexpectedToken(first.token.token_type)),
            Some(rule) => match prefix(rule, r1, first) {
                Err(e) => Err(e),
                Ok((left, r2)) => if r2.len() >= ts.len() {
                    Err(Failure::UnexpectedEOF)
                } else {
                    infix(r2, left, level)
                },
            },
        },
    }
}

/// What follows the expression `left`: operators that bind tighter than
/// `level`, each with what it takes.
pub open spec fn infix(ts: Seq<Lex>, left: ExprView, level: u8) -> Tree
    decreases ts.len(), 6nat,
{
    if ts.len() == 0 || level >= precedence_of(ts.last().token.token_type).rank() {
        Ok((left, ts))
    } else {
        match infix_rule(ts.last().token.token_type) {
            None => infix(ts.drop_last(), left, level),
            Some(rule) => match continued(rule, ts.drop_last(), left, ts.last()) {
                Err(e) => Err(e),
                Ok((next, rest)) => if rest.len() >= ts.len() {
                    Err(Failure::UnexpectedEOF)
                } else {
                    infix(rest, next, level)
                },
            },
        }
    }
}

/// The literal that a token is.
pub open spec fn literal(first: Lex) -> ExprView {
    match first.token.token_type {
        TokenType::Number => ExprView::Number(first.number),
        TokenType::String => ExprView::String(first.token.source),
        TokenType::Keyword(Keyword::True) => ExprView::True,
        _ => ExprView::False,
    }
}

/// The operator that a token at the start of an expression is.
pub open spec fn unary_operator(ty: TokenType) -> UnaryOperator {
    if ty == TokenType::Minus {
        UnaryOperator::Negate
    } else {
        UnaryOperator::Not
    }
}

/// The variable `name`, read, or assigned to where `=` and an expression
/// follow.
pub open spec fn variable(ts: Seq<Lex>, name: Seq<char>) -> Tree
    decreases ts.len(), 4nat,
{
    if check(ts, TokenType::Equal) {
        match take(ts) {
            Err(e) => Err(e),
            Ok((_, r1)) => match expression(r1) {
                Err(e) => Err(e),
                Ok((e, rest)) => Ok((ExprView::VarSet(name, Box::new(e)), rest)),
            },
        }
    } else {
        Ok((ExprView::VarGet(name), ts))
    }
}

/// The expression that the token `first` starts, by its rule.
pub open spec fn prefix(rule: PrefixRule, ts: Seq<Lex>, first: Lex) -> Tree
    decreases ts.len(), 5nat,
{
    match rule {
        PrefixRule::Literal(_) => Ok((literal(first), ts)),
        PrefixRule::Grouping(_) => match expression(ts) {
            Err(e) => Err(e),
            Ok((e, r1)) => match want(r1, TokenType::RightParen) {
                Err(e) => Err(e),
                Ok((_, rest)) => Ok((ExprView::Grouping(Box::new(e)), rest)),
            },
        },
        PrefixRule::Identifier(_) => variable(ts, first.token.source),
        PrefixRule::Unary(_) => match expression(ts) {
            Err(e) => Err(e),
            Ok((e, rest)) => Ok(
                (ExprView::Unary(Box::new(e), unary_operator(first.token.token_type)), rest),
            ),
        },
    }
}

/// The arguments of a call behind the first: each behind a comma.
pub open spec fn arguments(ts: Seq<Lex>, done: Seq<ExprView>) -> Trees
    decreases ts.len(), 4nat,
{
    if !check(ts, TokenType::Comma) {
        Ok((done, ts))
    } else {
        match take(ts) {
            Err(e) => Err(e),
            Ok((_, r1)) => match expression(r1) {
                Err(e) => Err(e),
                Ok((e, r2)) => if r2.len() >= ts.len() {
                    Err(Failure::UnexpectedEOF)
                } else {
                    arguments(r2, done.push(e))
                },
            },
        }
    }
}

/// The expression that the token `op` makes of the expression `left` and
/// of what follows, by its rule.
pub open spec fn continued(rule: InfixRule, ts: Seq<Lex>, left: ExprView, op: Lex) -> Tree
    decreases ts.len(), 5nat,
{
    match rule {
        InfixRule::Operator(p) => match precedence(ts, p.precedence.rank()) {
            Err(e) => Err(e),
            Ok((right, rest)) => match BinaryOperator::of_token(op.token.token_type) {
                Some(operator) => Ok(
                    (ExprView::Binary(Box::new(left), Box::new(right), operator.common()), rest),
                ),
                None => Err(Failure::UnexpectedToken(op.token.token_type)),
            },
        },
        InfixRule::Call(_) => if check(ts, TokenType::RightParen) {
            match want(ts, TokenType::RightParen) {
                Err(e) => Err(e),
                Ok((_, rest)) => Ok((ExprView::Call(Box::new(left), Seq::empty()), rest)),
            }
        } else {
            match expression(ts) {
                Err(e) => Err(e),
                Ok((first, r1)) => if r1.len() > ts.len() {
                    Err(Failure::UnexpectedEOF)
                } else {
                    match arguments(r1, seq![first]) {
                        Err(e) => Err(e),
                        Ok((args, r2)) => match want(r2, TokenType::RightParen) {
                            Err(e) => Err(e),
                            Ok((_, rest)) => Ok((ExprView::Call(Box::new(left), args), rest)),
                        },
                    }
                },
            }
        },
    }
}

} // verus!
