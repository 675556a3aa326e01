use crate::parser::ast::expr::Expr;
use crate::parser::grammar::{continued, Failure, prefix};
use crate::parser::parser::{EvalParser, Lexeme, parsed};
use crate::scanner::token::{Keyword, Token, TokenType};
use vstd::prelude::*;

verus! {

/// How tightly an operator binds: the later in this list, the tighter.
#[derive(Debug, Copy, Clone, PartialEq, Eq, Structural)]
pub enum Precedence {
    // binds nothing
    Lowest,
    // =
    Assignment,
    // == !=
    Equality,
    // < > <= >=
    Comparison,
    // + -
    Term,
    // * /
    Factor,
    // ! -
    Unary,
    // x()
    Call,
}

impl Precedence {
    /// The precedence as a number.
    pub open spec fn rank(self) -> u8 {
        match self {
            Precedence::Lowest => 0,
            Precedence::Assignment => 1,
            Precedence::Equality => 4,
            Precedence::Comparison => 5,
            Precedence::Term => 6,
            Precedence::Factor => 7,
            Precedence::Unary => 8,
            Precedence::Call => 9,
        }
    }

    /// The precedence as a number.
    pub fn level(self) -> (n: u8)
        ensures
            n == self.rank(),
    {
        match self {
            Precedence::Lowest => 0,
            Precedence::Assignment => 1,
            Precedence::Equality => 4,
            Precedence::Comparison => 5,
            Precedence::Term => 6,
            Precedence::Factor => 7,
            Precedence::Unary => 8,
            Precedence::Call => 9,
        }
    }
}

/// Parses a literal: a number, a string, `true` or `false`.
#[derive(Debug, Copy, Clone, PartialEq, Eq, Structural)]
pub struct LiteralParser;

/// Parses an expression in parentheses.
#[derive(Debug, Copy, Clone, PartialEq, Eq, Structural)]
pub struct GroupingParser;

/// Parses a variable that is read or assigned to.
#[derive(Debug, Copy, Clone, PartialEq, Eq, Structural)]
pub struct IdentifierParser;

/// Parses a binary operation, whose left operand is already parsed.
#[derive(Debug, Copy, Clone, PartialEq, Eq, Structural)]
pub struct InfixOperatorParser {
    pub precedence: Precedence,
}

impl InfixOperatorParser {
    pub fn new(precedence: Precedence) -> (p: InfixOperatorParser)
        ensures
            p.precedence == precedence,
    {
        InfixOperatorParser { precedence }
    }
}

/// Parses the arguments of a call, whose callee is already parsed.
#[derive(Debug, Copy, Clone, PartialEq, Eq, Structural)]
pub struct CallParser;

impl CallParser {
    pub fn new() -> (p: CallParser)
        ensures
            p == CallParser,
    {
        CallParser {  }
    }
}

/// Parses a negation or a logical not.
#[derive(Debug, Copy, Clone, PartialEq, Eq, Structural)]
pub struct UnaryParser;

impl UnaryParser {
    pub fn new() -> (p: UnaryParser)
        ensures
            p == UnaryParser,
    {
        UnaryParser {  }
    }
}

/// The rule for a token that starts an expression.
#[derive(Debug, Copy, Clone, PartialEq, Eq, Structural)]
pub enum PrefixRule {
    Literal(LiteralParser),
    Grouping(GroupingParser),
    Identifier(IdentifierParser),
    Unary(UnaryParser),
}

/// The rule for a token that continues an expression.
#[derive(Debug, Copy, Clone, PartialEq, Eq, Structural)]
pub enum InfixRule {
    Operator(InfixOperatorParser),
    Call(CallParser),
}

impl InfixRule {
    /// How tightly the rule binds.
    pub open spec fn precedence(self) -> Precedence {
        match self {
            InfixRule::Operator(p) => p.precedence,
            InfixRule::Call(_) => Precedence::Call,
        }
    }

    /// How tightly the rule binds.
    pub fn get_precedence(&self) -> (p: Precedence)
        ensures
            p == self.precedence(),
    {
        match self {
            InfixRule::Operator(p) => p.precedence,
            InfixRule::Call(_) => Precedence::Call,
        }
    }
}

/// A rule for a token that starts an expression.
pub trait PrefixParser {
    /// The rule that `self` stands for.
    spec fn rule(&self) -> PrefixRule;

    /// The expression that `token` starts. The parser is behind `token`.
    fn parse<'a>(&self, parser: &mut EvalParser<'a>, token: Lexeme<'a>) -> (r: Result<Expr, Failure>)
        ensures
            parsed(prefix(self.rule(), old(parser).stack(), token@), r, final(parser).stack()),
            r is Ok ==> final(parser).stack().len() <= old(parser).stack().len(),
    ;
}

/// A rule for a token that continues an expression.
pub trait InfixParser {
    /// The rule that `self` stands for.
    spec fn rule(&self) -> InfixRule;

    /// The expression that `token` makes of `left` and of what follows.
    /// The parser is behind `token`.
    fn parse<'a>(&self, parser: &mut EvalParser<'a>, left: Expr, token: Lexeme<'a>) -> (r: Result<
        Expr,
        Failure,
    >)
        ensures
            parsed(
                continued(self.rule(), old(parser).stack(), left@, token@),
                r,
                final(parser).stack(),
            ),
            r is Ok ==> final(parser).stack().len() <= old(parser).stack().len(),
    ;

    /// How tightly the rule binds.
    fn get_precedence(&self) -> (p: Precedence)
        ensures
            p == self.rule().precedence(),
    ;
}

/// The rule for a token type at the start of an expression, if there is
/// one.
pub open spec fn prefix_rule(token_type: TokenType) -> Option<PrefixRule> {
    match token_type {
        TokenType::Number
        | TokenType::String
        | TokenType::Keyword(Keyword::True)
        | TokenType::Keyword(Keyword::False) => Some(PrefixRule::Literal(LiteralParser)),
        TokenType::LeftParen => Some(PrefixRule::Grouping(GroupingParser)),
        TokenType::Identifier => Some(PrefixRule::Identifier(IdentifierParser)),
        TokenType::Bang | TokenType::Minus => Some(PrefixRule::Unary(UnaryParser)),
        _ => None,
    }
}

/// The rule for a token type inside an expression, if there is one.
pub open spec fn infix_rule(token_type: TokenType) -> Option<InfixRule> {
    match token_type {
        TokenType::Plus | TokenType::Minus => Some(
            InfixRule::Operator(InfixOperatorParser { precedence: Precedence::Term }),
        ),
        TokenType::Star | TokenType::Slash => Some(
            InfixRule::Operator(InfixOperatorParser { precedence: Precedence::Factor }),
        ),
        TokenType::EqualEqual | TokenType::BangEqual => Some(
            InfixRule::Operator(InfixOperatorParser { precedence: Precedence::Equality }),
        ),
        TokenType::GreaterThan
        | TokenType::GreaterThanEqual
        | TokenType::LessThan
        | TokenType::LessThanEqual => Some(
            InfixRule::Operator(InfixOperatorParser { precedence: Precedence::Comparison }),
        ),
        TokenType::LeftParen => Some(InfixRule::Call(CallParser)),
        _ => None,
    }
}

/// How tightly a token of this type binds inside an expression: as its rule
/// does, and not at all where it has none.
pub open spec fn precedence_of(token_type: TokenType) -> Precedence {
    match infix_rule(token_type) {
        Some(rule) => rule.precedence(),
        None => Precedence::Lowest,
    }
}

/// The rule for `token_type` at the start of an expression.
pub fn get_prefix_rule(token_type: &TokenType) -> (r: Option<PrefixRule>)
    ensures
        r == prefix_rule(*token_type),
{
    match token_type {
        TokenType::Number
        | TokenType::String
        | TokenType::Keyword(Keyword::True)
        | TokenType::Keyword(Keyword::False) => Some(PrefixRule::Literal(LiteralParser {  })),
        TokenType::LeftParen => Some(PrefixRule::Grouping(GroupingParser {  })),
        TokenType::Identifier => Some(PrefixRule::Identifier(IdentifierParser {  })),
        TokenType::Bang | TokenType::Minus => Some(PrefixRule::Unary(UnaryParser::new())),
        _ => None,
    }
}

/// The rule for `token_type` inside an expression.
pub fn get_infix_rule(token_type: &TokenType) -> (r: Option<InfixRule>)
    ensures
        r == infix_rule(*token_type),
{
    match token_type {
        TokenType::Plus | TokenType::Minus => Some(
            InfixRule::Operator(InfixOperatorParser::new(Precedence::Term)),
        ),
        TokenType::Star | TokenType::Slash => Some(
            InfixRule::Operator(InfixOperatorParser::new(Precedence::Factor)),
        ),
        TokenType::EqualEqual | TokenType::BangEqual => Some(
            InfixRule::Operator(InfixOperatorParser::new(Precedence::Equality)),
        ),
        TokenType::GreaterThan
        | TokenType::GreaterThanEqual
        | TokenType::LessThan
        | TokenType::LessThanEqual => Some(
            InfixRule::Operator(InfixOperatorParser::new(Precedence::Comparison)),
        ),
        TokenType::LeftParen => Some(InfixRule::Call(CallParser::new())),
        _ => None,
    }
}

/// How tightly `token` binds inside an expression.
pub fn get_precedence(token: &Token) -> (p: Precedence)
    ensures
        p == precedence_of(token.token_type),
{
    match get_infix_rule(&token.token_type) {
        Some(rule) => rule.get_precedence(),
        None => Precedence::Lowest,
    }
}

} // verus!
