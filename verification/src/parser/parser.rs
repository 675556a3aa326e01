use crate::error::SyntaxError;
use crate::parser::ast::expr::{
    BinaryExpr, BinaryOperator, BlockExpr, CallExpr, Expr, ExprKind, exprs_view,
    FunctionDeclaration, FunctionExpr, GroupingExpr, IfElseExpr, IfExpr, lemma_exprs_view,
    LiteralExpr, names_view, ReturnExpr, UnaryExpr, UnaryOperator, VarAssignExpr, VarGetExpr,
    Variable, VarSetExpr,
};
use crate::parser::grammar::{
    arguments, block, check, conditional, continued, def, do_block, expression, Failure, infix,
    Lex, module, parameters, peek_type, precedence, prefix, print, return_statement, skip_lines,
    statements_to_end, take, Taken, top_level, Tree, Trees, var, variable, want,
};
use crate::parser::rule::{
    CallParser, get_infix_rule, get_precedence, get_prefix_rule, GroupingParser,
    IdentifierParser, InfixOperatorParser, InfixParser, InfixRule, LiteralParser, Precedence,
    PrefixParser, PrefixRule, UnaryParser,
};
use crate::scanner::lexer::{Lexer, LexError, tokenize};
use crate::scanner::morpher::{cleaned, morph};
use crate::scanner::token::{Keyword, Token, TokenType, TokenView};
use crate::syntax::expr::ExprView;
use vstd::prelude::*;

verus! {

/// A token as the parser reads it: with the value of its text, if it is a
/// number.
#[derive(Debug, Clone, Copy)]
pub struct Lexeme<'a> {
    pub token: Token<'a>,
    pub number: u64,
}

impl<'a> View for Lexeme<'a> {
    type V = Lex;

    open spec fn view(&self) -> Lex {
        Lex { token: self.token@, number: self.number }
    }
}

/// Whether the parser returned what the grammar gives.
pub open spec fn parsed(rule: Tree, r: Result<Expr, Failure>, after: Seq<Lex>) -> bool {
    match r {
        Ok(e) => rule == Ok::<_, Failure>((e@, after)),
        Err(err) => rule == Err::<(ExprView, Seq<Lex>), _>(err),
    }
}

/// Whether the parser returned the trees that the grammar gives.
pub open spec fn parsed_all(rule: Trees, r: Result<Vec<Expr>, Failure>, after: Seq<Lex>) -> bool {
    match r {
        Ok(es) => rule == Ok::<_, Failure>((exprs_view(es@), after)),
        Err(err) => rule == Err::<(Seq<ExprView>, Seq<Lex>), _>(err),
    }
}

/// Whether the parser took the token that the grammar gives: from the
/// tokens `before` it went on to `after`. Where the grammar gives an
/// error, the tokens are as they were.
pub open spec fn taken(
    rule: Taken,
    r: Result<Lexeme, Failure>,
    before: Seq<Lex>,
    after: Seq<Lex>,
) -> bool {
    match r {
        Ok(l) => rule == Ok::<_, Failure>((l@, after)),
        Err(err) => rule == Err::<(Lex, Seq<Lex>), _>(err) && after == before,
    }
}

/// Whether `stack` holds the tokens `tokens`, the first on top, each
/// number with a value that `decode` gave for its text.
pub open spec fn reads<F: Fn(&str) -> u64>(decode: F, stack: Seq<Lex>, tokens: Seq<TokenView>) -> bool {
    &&& stack.len() == tokens.len()
    &&& forall|i: int|
        0 <= i < stack.len() ==> {
            &&& (#[trigger] stack[i]).token == tokens[tokens.len() - 1 - i]
            &&& if stack[i].token.token_type == TokenType::Number {
                exists|text: &str|
                    text@ == stack[i].token.source && call_ensures(decode, (text,), stack[i].number)
            } else {
                stack[i].number == 0
            }
        }
}

/// Reads a token sequence of the first grammar as statements.
pub struct EvalParser<'a> {
    pub tokens: Vec<Lexeme<'a>>,
}

impl<'a> EvalParser<'a> {
    /// The tokens that are left, the next one last.
    pub open spec fn stack(&self) -> Seq<Lex> {
        self.tokens@.map_values(|l: Lexeme| l@)
    }

    /// A parser at the start of `source`. The value of each number is what
    /// `decode` makes of its text.
    pub fn new<F: Fn(&str) -> u64>(source: &'a str, decode: &F) -> (r: Result<
        EvalParser<'a>,
        Failure,
    >)
        requires
            forall|text: &str| call_requires(*decode, (text,)),
        ensures
            match r {
                Ok(p) => tokenize(source@) matches Ok(tokens) && reads(
                    *decode,
                    p.stack(),
                    cleaned(tokens, tokens.len() as int),
                ),
                Err(Failure::UnexpectedChar(c)) => tokenize(source@) == Err::<Seq<TokenView>, _>(
                    LexError::UnexpectedChar(c),
                ),
                Err(Failure::UnterminatedString) => tokenize(source@) == Err::<Seq<TokenView>, _>(
                    LexError::UnterminatedString,
                ),
                Err(_) => false,
            },
    {
        let tokens = match Lexer::parse(source) {
            Ok(tokens) => tokens,
            Err(SyntaxError::UnexpectedChar(c)) => {
                return Err(Failure::UnexpectedChar(c));
            },
            Err(_) => {
                return Err(Failure::UnterminatedString);
            },
        };
        let tokens = morph(tokens);
        let ghost clean = tokens@.map_values(|t: Token| t@);
        let mut stack: Vec<Lexeme<'a>> = Vec::new();
        let mut i: usize = tokens.len();
        while i > 0
            invariant
                i <= tokens.len(),
                clean == tokens@.map_values(|t: Token| t@),
                stack@.len() == tokens.len() - i,
                forall|text: &str| call_requires(*decode, (text,)),
                forall|j: int|
                    0 <= j < stack@.len() ==> {
                        &&& (#[trigger] stack@[j])@.token == clean[clean.len() - 1 - j]
                        &&& if stack@[j]@.token.token_type == TokenType::Number {
                            exists|text: &str|
                                text@ == stack@[j]@.token.source && call_ensures(
                                    *decode,
                                    (text,),
                                    stack@[j]@.number,
                                )
                        } else {
                            stack@[j]@.number == 0
                        }
                    },
            decreases i,
        {
            i -= 1;
            let token = tokens[i];
            let number = match token.token_type {
                TokenType::Number => decode(token.source),
                _ => 0,
            };
            let ghost before = stack@;
            stack.push(Lexeme { token, number });
            proof {
                assert(clean[i as int] == token@);
                assert forall|j: int| 0 <= j < stack@.len() implies {
                    &&& (#[trigger] stack@[j])@.token == clean[clean.len() - 1 - j]
                    &&& if stack@[j]@.token.token_type == TokenType::Number {
                        exists|text: &str|
                            text@ == stack@[j]@.token.source && call_ensures(
                                *decode,
                                (text,),
                                stack@[j]@.number,
                            )
                    } else {
                        stack@[j]@.number == 0
                    }
                } by {
                    if j < before.len() {
                        assert(stack@[j] == before[j]);
                    } else {
                        if token.token_type == TokenType::Number {
                            assert(token.source@ == stack@[j]@.token.source && call_ensures(
                                *decode,
                                (token.source,),
                                stack@[j]@.number,
                            ));
                        }
                    }
                }
            }
        }
        let parser = EvalParser { tokens: stack };
        proof {
            assert forall|j: int| 0 <= j < parser.stack().len() implies {
                &&& (#[trigger] parser.stack()[j]).token == clean[clean.len() - 1 - j]
                &&& if parser.stack()[j].token.token_type == TokenType::Number {
                    exists|text: &str|
                        text@ == parser.stack()[j].token.source && call_ensures(
                            *decode,
                            (text,),
                            parser.stack()[j].number,
                        )
                } else {
                    parser.stack()[j].number == 0
                }
            } by {
                assert(parser.stack()[j] == stack@[j]@);
            }
        }
        Ok(parser)
    }

    /// The statements that `source` spells. The value of each number is
    /// what `decode` makes of its text.
    pub fn parse<F: Fn(&str) -> u64>(source: &str, decode: &F) -> (r: Result<Vec<Expr>, Failure>)
        requires
            forall|text: &str| call_requires(*decode, (text,)),
        ensures
            match tokenize(source@) {
                Err(LexError::UnexpectedChar(c)) => r matches Err(Failure::UnexpectedChar(x)) && x
                    == c,
                Err(LexError::UnterminatedString) => r matches Err(Failure::UnterminatedString),
                Ok(tokens) => exists|stack: Seq<Lex>|
                    reads(*decode, stack, cleaned(tokens, tokens.len() as int)) && (match r {
                        Ok(es) => #[trigger] module(stack, Seq::empty()) == Ok::<_, Failure>(
                            exprs_view(es@),
                        ),
                        Err(e) => module(stack, Seq::empty()) == Err::<Seq<ExprView>, _>(e),
                    }),
            },
    {
        let mut parser = match EvalParser::new(source, decode) {
            Ok(parser) => parser,
            Err(e) => {
                return Err(e);
            },
        };
        parser.parse_statements()
    }

    /// The statements that the tokens spell, up to the end token.
    pub fn parse_statements(&mut self) -> (r: Result<Vec<Expr>, Failure>)
        ensures
            match r {
                Ok(es) => module(old(self).stack(), Seq::empty()) == Ok::<_, Failure>(
                    exprs_view(es@),
                ),
                Err(e) => module(old(self).stack(), Seq::empty()) == Err::<Seq<ExprView>, _>(e),
            },
    {
        let mut exprs: Vec<Expr> = Vec::new();
        proof {
            lemma_exprs_view(exprs@);
        }
        loop
            invariant
                module(old(self).stack(), Seq::empty()) == module(self.stack(), exprs_view(exprs@)),
            decreases self.tokens@.len(),
        {
            if self.match_(TokenType::EOF) {
                return Ok(exprs);
            }
            // Consume lines till a non line token is found
            self.skip_lines();
            match self.parse_top_level_expression() {
                Ok(e) => {
                    proof {
                        lemma_exprs_view(exprs@);
                    }
                    exprs.push(e);
                },
                Err(e) => {
                    return Err(e);
                },
            }
            if !self.match_(TokenType::EOF) {
                match self.want(TokenType::Line) {
                    Ok(_) => {},
                    Err(e) => {
                        return Err(e);
                    },
                }
            } else {
                return Ok(exprs);
            }
        }
    }

    // Eval doesn't have statements but "top-level" expressions.
    fn parse_top_level_expression(&mut self) -> (r: Result<Expr, Failure>)
        ensures
            parsed(top_level(old(self).stack()), r, final(self).stack()),
            r is Ok ==> final(self).stack().len() < old(self).stack().len(),
        decreases old(self).tokens@.len(), 20nat,
    {
        match self.peek_type() {
            TokenType::Keyword(Keyword::Print) => self.parse_print(),
            TokenType::Keyword(Keyword::Def) => self.declare_def(),
            TokenType::Keyword(Keyword::Var) => self.declare_var(),
            TokenType::Keyword(Keyword::Do) => self.parse_do(),
            TokenType::Keyword(Keyword::If) => self.parse_if(),
            TokenType::Keyword(Keyword::Return) => self.parse_return(),
            _ => self.parse_expression(),
        }
    }

    /// An expression.
    pub fn parse_expression(&mut self) -> (r: Result<Expr, Failure>)
        ensures
            parsed(expression(old(self).stack()), r, final(self).stack()),
            r is Ok ==> final(self).stack().len() < old(self).stack().len(),
        decreases old(self).tokens@.len(), 9nat,
    {
        self.parse_precedence(Precedence::Lowest)
    }

    /// An expression of operators that bind tighter than `precedence`.
    pub fn parse_precedence(&mut self, precedence: Precedence) -> (r: Result<Expr, Failure>)
        ensures
            parsed(self::precedence(old(self).stack(), precedence.rank()), r, final(self).stack()),
            r is Ok ==> final(self).stack().len() < old(self).stack().len(),
        decreases old(self).tokens@.len(), 8nat,
    {
        // Prefix
        let first = match self.take() {
            Ok(l) => l,
            Err(e) => {
                return Err(e);
            },
        };
        match get_prefix_rule(&first.token.token_type) {
            Some(rule) => {
                let left = match rule.parse(self, first) {
                    Ok(e) => e,
                    Err(e) => {
                        return Err(e);
                    },
                };
                // Infix
                self.parse_infix(left, precedence.level())
            },
            None => Err(Failure::UnexpectedToken(first.token.token_type)),
        }
    }

    fn parse_infix(&mut self, left: Expr, precedence: u8) -> (r: Result<Expr, Failure>)
        ensures
            parsed(infix(old(self).stack(), left@, precedence), r, final(self).stack()),
            r is Ok ==> final(self).stack().len() <= old(self).stack().len(),
        decreases old(self).tokens@.len(), 15nat,
    {
        if self.is_empty() {
            return Ok(left);
        }
        let current = get_precedence(self.peek());
        if precedence >= current.level() {
            return Ok(left);
        }
        let op = match self.take() {
            Ok(l) => l,
            Err(e) => {
                return Err(e);
            },
        };
        match get_infix_rule(&op.token.token_type) {
            Some(rule) => {
                let next = match rule.parse(self, left, op) {
                    Ok(e) => e,
                    Err(e) => {
                        return Err(e);
                    },
                };
                self.parse_infix(next, precedence)
            },
            None => self.parse_infix(left, precedence),
        }
    }

    fn parse_print(&mut self) -> (r: Result<Expr, Failure>)
        ensures
            parsed(print(old(self).stack()), r, final(self).stack()),
            r is Ok ==> final(self).stack().len() < old(self).stack().len(),
        decreases old(self).tokens@.len(), 18nat,
    {
        match self.want(TokenType::Keyword(Keyword::Print)) {
            Ok(_) => {},
            Err(e) => {
                return Err(e);
            },
        }
        match self.parse_expression() {
            Ok(expr) => Ok(Expr::new(ExprKind::Print(expr))),
            Err(e) => Err(e),
        }
    }

    fn parse_parameters(&mut self) -> (r: Result<Vec<Variable>, Failure>)
        ensures
            match r {
                Ok(ps) => parameters(old(self).stack(), Seq::empty()) == Ok::<_, Failure>(
                    (names_view(ps@), final(self).stack()),
                ),
                Err(e) => parameters(old(self).stack(), Seq::empty()) == Err::<
                    (Seq<Seq<char>>, Seq<Lex>),
                    _,
                >(e),
            },
            r is Ok ==> final(self).stack().len() <= old(self).stack().len(),
    {
        let mut params: Vec<Variable> = Vec::new();
        proof {
            assert(names_view(params@) =~= Seq::<Seq<char>>::empty());
        }
        loop
            invariant
                parameters(old(self).stack(), Seq::empty()) == parameters(
                    self.stack(),
                    names_view(params@),
                ),
                self.stack().len() <= old(self).stack().len(),
            decreases self.tokens@.len(),
        {
            if self.match_(TokenType::RightParen) || self.match_(TokenType::EOF) {
                return Ok(params);
            }
            let param = match self.want(TokenType::Identifier) {
                Ok(l) => l,
                Err(e) => {
                    return Err(e);
                },
            };
            let ghost before = names_view(params@);
            params.push(Variable::new(param.token.source.to_owned()));
            proof {
                assert(names_view(params@) =~= before.push(param@.token.source));
            }
            if self.match_(TokenType::Comma) {
                match self.take() {
                    Ok(_) => {},
                    Err(e) => {
                        return Err(e);
                    },
                }
            } else {
                return Ok(params);
            }
        }
    }

    fn declare_def(&mut self) -> (r: Result<Expr, Failure>)
        ensures
            parsed(def(old(self).stack()), r, final(self).stack()),
            r is Ok ==> final(self).stack().len() < old(self).stack().len(),
        decreases old(self).tokens@.len(), 18nat,
    {
        match self.want(TokenType::Keyword(Keyword::Def)) {
            Ok(_) => {},
            Err(e) => {
                return Err(e);
            },
        }
        let identifier = match self.want(TokenType::Identifier) {
            Ok(l) => l,
            Err(e) => {
                return Err(e);
            },
        };
        match self.want(TokenType::LeftParen) {
            Ok(_) => {},
            Err(e) => {
                return Err(e);
            },
        }
        let parameters = match self.parse_parameters() {
            Ok(ps) => ps,
            Err(e) => {
                return Err(e);
            },
        };
        match self.want(TokenType::RightParen) {
            Ok(_) => {},
            Err(e) => {
                return Err(e);
            },
        }
        match self.want(TokenType::Line) {
            Ok(_) => {},
            Err(e) => {
                return Err(e);
            },
        }
        let body = match self.parse_to_end(false) {
            Ok(es) => es,
            Err(e) => {
                return Err(e);
            },
        };
        match self.want(TokenType::Keyword(Keyword::End)) {
            Ok(_) => {},
            Err(e) => {
                return Err(e);
            },
        }
        let fun_decl = FunctionDeclaration::new(parameters, BlockExpr::new(body));
        Ok(
            Expr::new(
                ExprKind::Function(
                    FunctionExpr::new(Variable::new(identifier.token.source.to_owned()), fun_decl),
                ),
            ),
        )
    }

    fn declare_var(&mut self) -> (r: Result<Expr, Failure>)
        ensures
            parsed(var(old(self).stack()), r, final(self).stack()),
            r is Ok ==> final(self).stack().len() < old(self).stack().len(),
        decreases old(self).tokens@.len(), 18nat,
    {
        match self.want(TokenType::Keyword(Keyword::Var)) {
            Ok(_) => {},
            Err(e) => {
                return Err(e);
            },
        }
        let identifier = match self.want(TokenType::Identifier) {
            Ok(l) => l,
            Err(e) => {
                return Err(e);
            },
        };
        let var = Variable::new(identifier.token.source.to_owned());
        // Var has initializer
        let initializer = if self.match_(TokenType::Equal) {
            // Pop '=' operator
            match self.take() {
                Ok(_) => {},
                Err(e) => {
                    return Err(e);
                },
            }
            match self.parse_expression() {
                Ok(e) => e,
                Err(e) => {
                    return Err(e);
                },
            }
        } else {
            Expr::new(ExprKind::Literal(LiteralExpr::Nil))
        };
        Ok(Expr::new(ExprKind::VarAssign(VarAssignExpr::new(var, initializer))))
    }

    /// The variable that the token `identifier` names: read, or assigned to
    /// where `=` and an expression follow.
    pub fn parse_var(&mut self, identifier: Token) -> (r: Result<Expr, Failure>)
        ensures
            parsed(variable(old(self).stack(), identifier@.source), r, final(self).stack()),
            r is Ok ==> final(self).stack().len() <= old(self).stack().len(),
        decreases old(self).tokens@.len(), 12nat,
    {
        let var = Variable::new(identifier.source.to_owned());
        // Var has initializer
        if self.match_(TokenType::Equal) {
            // Pop '=' operator
            match self.take() {
                Ok(_) => {},
                Err(e) => {
                    return Err(e);
                },
            }
            match self.parse_expression() {
                Ok(initializer) => Ok(
                    Expr::new(ExprKind::VarSet(VarSetExpr::new(var, initializer))),
                ),
                Err(e) => Err(e),
            }
        } else {
            Ok(Expr::new(ExprKind::VarGet(VarGetExpr::new(var))))
        }
    }

    fn parse_do(&mut self) -> (r: Result<Expr, Failure>)
        ensures
            parsed(do_block(old(self).stack()), r, final(self).stack()),
            r is Ok ==> final(self).stack().len() < old(self).stack().len(),
        decreases old(self).tokens@.len(), 18nat,
    {
        // Consume "do" keyword
        match self.want(TokenType::Keyword(Keyword::Do)) {
            Ok(_) => {},
            Err(e) => {
                return Err(e);
            },
        }
        match self.want(TokenType::Line) {
            Ok(_) => {},
            Err(e) => {
                return Err(e);
            },
        }
        self.parse_block()
    }

    fn parse_if(&mut self) -> (r: Result<Expr, Failure>)
        ensures
            parsed(conditional(old(self).stack()), r, final(self).stack()),
            r is Ok ==> final(self).stack().len() < old(self).stack().len(),
        decreases old(self).tokens@.len(), 18nat,
    {
        match self.want(TokenType::Keyword(Keyword::If)) {
            Ok(_) => {},
            Err(e) => {
                return Err(e);
            },
        }
        let cond = match self.parse_expression() {
            Ok(e) => e,
            Err(e) => {
                return Err(e);
            },
        };
        match self.want(TokenType::Keyword(Keyword::Then)) {
            Ok(_) => {},
            Err(e) => {
                return Err(e);
            },
        }
        match self.want(TokenType::Line) {
            Ok(_) => {},
            Err(e) => {
                return Err(e);
            },
        }
        let then = match self.parse_to_end(true) {
            Ok(es) => es,
            Err(e) => {
                return Err(e);
            },
        };
        if self.match_(TokenType::Keyword(Keyword::Else)) {
            match self.take() {
                Ok(_) => {},
                Err(e) => {
                    return Err(e);
                },
            }
            match self.want(TokenType::Line) {
                Ok(_) => {},
                Err(e) => {
                    return Err(e);
                },
            }
            let else_clause = match self.parse_to_end(false) {
                Ok(es) => es,
                Err(e) => {
                    return Err(e);
                },
            };
            match self.want(TokenType::Keyword(Keyword::End)) {
                Ok(_) => {},
                Err(e) => {
                    return Err(e);
                },
            }
            Ok(
                Expr::new(
                    ExprKind::IfElse(
                        IfElseExpr::new(cond, BlockExpr::new(then), BlockExpr::new(else_clause)),
                    ),
                ),
            )
        } else {
            match self.want(TokenType::Keyword(Keyword::End)) {
                Ok(_) => {},
                Err(e) => {
                    return Err(e);
                },
            }
            Ok(Expr::new(ExprKind::If(IfExpr::new(cond, then))))
        }
    }

    fn parse_return(&mut self) -> (r: Result<Expr, Failure>)
        ensures
            parsed(return_statement(old(self).stack()), r, final(self).stack()),
            r is Ok ==> final(self).stack().len() < old(self).stack().len(),
        decreases old(self).tokens@.len(), 18nat,
    {
        match self.want(TokenType::Keyword(Keyword::Return)) {
            Ok(_) => {},
            Err(e) => {
                return Err(e);
            },
        }
        let return_expr = if self.match_(TokenType::Line) {
            ReturnExpr::new(None)
        } else {
            match self.parse_top_level_expression() {
                Ok(e) => ReturnExpr::new(Some(e)),
                Err(e) => {
                    return Err(e);
                },
            }
        };
        Ok(Expr::new(ExprKind::Return(return_expr)))
    }

    /// Statements, each with the end of its line, up to `end`, and up to
    /// `else` where `at_else` says so.
    fn parse_to_end(&mut self, at_else: bool) -> (r: Result<Vec<Expr>, Failure>)
        ensures
            parsed_all(
                statements_to_end(old(self).stack(), Seq::empty(), at_else),
                r,
                final(self).stack(),
            ),
            r is Ok ==> final(self).stack().len() <= old(self).stack().len(),
        decreases old(self).tokens@.len(), 22nat,
    {
        let mut exprs: Vec<Expr> = Vec::new();
        proof {
            lemma_exprs_view(exprs@);
        }
        loop
            invariant
                statements_to_end(old(self).stack(), Seq::empty(), at_else) == statements_to_end(
                    self.stack(),
                    exprs_view(exprs@),
                    at_else,
                ),
                self.stack().len() <= old(self).stack().len(),
            decreases self.tokens@.len(),
        {
            if self.match_(TokenType::Keyword(Keyword::End)) || (at_else && self.match_(
                TokenType::Keyword(Keyword::Else),
            )) {
                return Ok(exprs);
            }
            match self.parse_top_level_expression() {
                Ok(e) => {
                    proof {
                        lemma_exprs_view(exprs@);
                    }
                    exprs.push(e);
                },
                Err(e) => {
                    return Err(e);
                },
            }
            match self.want(TokenType::Line) {
                Ok(_) => {},
                Err(e) => {
                    return Err(e);
                },
            }
        }
    }

    fn parse_block(&mut self) -> (r: Result<Expr, Failure>)
        ensures
            parsed(block(old(self).stack()), r, final(self).stack()),
            r is Ok ==> final(self).stack().len() < old(self).stack().len(),
        decreases old(self).tokens@.len(), 24nat,
    {
        let exprs = match self.parse_to_end(false) {
            Ok(es) => es,
            Err(e) => {
                return Err(e);
            },
        };
        match self.want(TokenType::Keyword(Keyword::End)) {
            Ok(_) => Ok(Expr::new(ExprKind::Block(BlockExpr::new(exprs)))),
            Err(e) => Err(e),
        }
    }

    fn skip_lines(&mut self)
        ensures
            final(self).stack() == skip_lines(old(self).stack()),
            final(self).stack().len() <= old(self).stack().len(),
    {
        while self.tokens.len() > 0 && self.match_(TokenType::Line)
            invariant
                skip_lines(self.stack()) == skip_lines(old(self).stack()),
                self.stack().len() <= old(self).stack().len(),
            decreases self.tokens@.len(),
        {
            let _ = self.take();
        }
    }

    /// Whether the next token has the type `token_type`. Nothing is
    /// consumed.
    pub fn match_(&mut self, token_type: TokenType) -> (b: bool)
        ensures
            b == check(old(self).stack(), token_type),
            final(self).stack() == old(self).stack(),
    {
        self.peek_type() == token_type
    }

    /// The type of the next token; where none is left, that of the end
    /// token.
    fn peek_type(&self) -> (ty: TokenType)
        ensures
            ty == peek_type(self.stack()),
    {
        if self.tokens.len() == 0 {
            return TokenType::EOF;
        }
        self.tokens[self.tokens.len() - 1].token.token_type
    }

    /// The next token.
    fn peek(&self) -> (t: &Token<'a>)
        requires
            self.stack().len() > 0,
        ensures
            t@ == self.stack().last().token,
    {
        &self.tokens[self.tokens.len() - 1].token
    }

    /// Takes the next token, which must have the type `expect`. Where it
    /// has another type, or none is left, no token is consumed.
    pub fn expect(&mut self, expect: TokenType) -> (r: Result<Token<'a>, Failure>)
        ensures
            match r {
                Ok(t) => want(old(self).stack(), expect) matches Ok((l, rest)) && l.token == t@
                    && rest == final(self).stack(),
                Err(e) => want(old(self).stack(), expect) == Err::<(Lex, Seq<Lex>), _>(e)
                    && final(self).stack() == old(self).stack(),
            },
            r is Ok ==> final(self).stack().len() < old(self).stack().len(),
    {
        match self.want(expect) {
            Ok(l) => Ok(l.token),
            Err(e) => Err(e),
        }
    }

    /// Takes the next token. Where none is left, that is an error.
    pub fn consume(&mut self) -> (r: Result<Token<'a>, Failure>)
        ensures
            match r {
                Ok(t) => take(old(self).stack()) matches Ok((l, rest)) && l.token == t@ && rest
                    == final(self).stack(),
                Err(e) => take(old(self).stack()) == Err::<(Lex, Seq<Lex>), _>(e)
                    && final(self).stack() == old(self).stack(),
            },
            r is Ok ==> final(self).stack().len() < old(self).stack().len(),
    {
        match self.take() {
            Ok(l) => Ok(l.token),
            Err(e) => Err(e),
        }
    }

    /// Takes the next token, with its number.
    fn take(&mut self) -> (r: Result<Lexeme<'a>, Failure>)
        ensures
            taken(take(old(self).stack()), r, old(self).stack(), final(self).stack()),
            r is Ok ==> final(self).stack().len() + 1 == old(self).stack().len(),
    {
        match self.tokens.pop() {
            Some(l) => {
                proof {
                    assert(self.stack() =~= old(self).stack().drop_last());
                }
                Ok(l)
            },
            None => Err(Failure::UnexpectedEOF),
        }
    }

    /// Takes the next token, with its number; it must have the type
    /// `expect`.
    fn want(&mut self, expect: TokenType) -> (r: Result<Lexeme<'a>, Failure>)
        ensures
            taken(want(old(self).stack(), expect), r, old(self).stack(), final(self).stack()),
            r is Ok ==> final(self).stack().len() + 1 == old(self).stack().len(),
    {
        let actual = self.peek_type();
        if actual == expect {
            self.take()
        } else {
            Err(Failure::Expect(expect, actual))
        }
    }

    fn is_empty(&self) -> (b: bool)
        ensures
            b == (self.stack().len() == 0),
    {
        self.tokens.len() == 0
    }

    /// The arguments of a call behind the first.
    fn parse_arguments(&mut self, first: Expr) -> (r: Result<Vec<Expr>, Failure>)
        ensures
            parsed_all(arguments(old(self).stack(), seq![first@]), r, final(self).stack()),
            r is Ok ==> final(self).stack().len() <= old(self).stack().len(),
        decreases old(self).tokens@.len(), 12nat,
    {
        let mut args: Vec<Expr> = Vec::new();
        proof {
            lemma_exprs_view(args@);
        }
        args.push(first);
        proof {
            assert(exprs_view(args@) =~= seq![first@]);
        }
        loop
            invariant
                arguments(old(self).stack(), seq![first@]) == arguments(
                    self.stack(),
                    exprs_view(args@),
                ),
                self.stack().len() <= old(self).stack().len(),
            decreases self.tokens@.len(),
        {
            if !self.match_(TokenType::Comma) {
                return Ok(args);
            }
            match self.take() {
                Ok(_) => {},
                Err(e) => {
                    return Err(e);
                },
            }
            let arg = match self.parse_expression() {
                Ok(e) => e,
                Err(e) => {
                    return Err(e);
                },
            };
            proof {
                lemma_exprs_view(args@);
            }
            args.push(arg);
        }
    }
}

impl PrefixRule {
    /// The expression that the token `first` starts.
    pub fn parse<'a>(&self, parser: &mut EvalParser<'a>, first: Lexeme<'a>) -> (r: Result<
        Expr,
        Failure,
    >)
        ensures
            parsed(prefix(*self, old(parser).stack(), first@), r, final(parser).stack()),
            r is Ok ==> final(parser).stack().len() <= old(parser).stack().len(),
        decreases old(parser).tokens@.len(), 14nat,
    {
        match self {
            PrefixRule::Literal(p) => p.parse(parser, first),
            PrefixRule::Grouping(p) => p.parse(parser, first),
            PrefixRule::Identifier(p) => p.parse(parser, first),
            PrefixRule::Unary(p) => p.parse(parser, first),
        }
    }
}

impl LiteralParser {
    pub fn parse<'a>(&self, parser: &mut EvalParser<'a>, first: Lexeme<'a>) -> (r: Result<
        Expr,
        Failure,
    >)
        ensures
            parsed(
                prefix(PrefixRule::Literal(*self), old(parser).stack(), first@),
                r,
                final(parser).stack(),
            ),
            final(parser).stack() == old(parser).stack(),
    {
        let op = match first.token.token_type {
            TokenType::Number => LiteralExpr::Number(first.number),
            TokenType::String => LiteralExpr::String(first.token.source.to_owned()),
            TokenType::Keyword(Keyword::True) => LiteralExpr::True,
            _ => LiteralExpr::False,
        };
        Ok(Expr::new(ExprKind::Literal(op)))
    }
}

impl GroupingParser {
    pub fn parse<'a>(&self, parser: &mut EvalParser<'a>, first: Lexeme<'a>) -> (r: Result<
        Expr,
        Failure,
    >)
        ensures
            parsed(
                prefix(PrefixRule::Grouping(*self), old(parser).stack(), first@),
                r,
                final(parser).stack(),
            ),
            r is Ok ==> final(parser).stack().len() <= old(parser).stack().len(),
        decreases old(parser).tokens@.len(), 13nat,
    {
        let expr = match parser.parse_expression() {
            Ok(e) => e,
            Err(e) => {
                return Err(e);
            },
        };
        match parser.want(TokenType::RightParen) {
            Ok(_) => Ok(Expr::new(ExprKind::Grouping(GroupingExpr::new(expr)))),
            Err(e) => Err(e),
        }
    }
}

impl IdentifierParser {
    pub fn parse<'a>(&self, parser: &mut EvalParser<'a>, first: Lexeme<'a>) -> (r: Result<
        Expr,
        Failure,
    >)
        ensures
            parsed(
                prefix(PrefixRule::Identifier(*self), old(parser).stack(), first@),
                r,
                final(parser).stack(),
            ),
            r is Ok ==> final(parser).stack().len() <= old(parser).stack().len(),
        decreases old(parser).tokens@.len(), 13nat,
    {
        parser.parse_var(first.token)
    }
}

impl UnaryParser {
    pub fn parse<'a>(&self, parser: &mut EvalParser<'a>, first: Lexeme<'a>) -> (r: Result<
        Expr,
        Failure,
    >)
        ensures
            parsed(
                prefix(PrefixRule::Unary(*self), old(parser).stack(), first@),
                r,
                final(parser).stack(),
            ),
            r is Ok ==> final(parser).stack().len() <= old(parser).stack().len(),
        decreases old(parser).tokens@.len(), 13nat,
    {
        let expr = match parser.parse_expression() {
            Ok(e) => e,
            Err(e) => {
                return Err(e);
            },
        };
        let op = match first.token.token_type {
            TokenType::Minus => UnaryOperator::Negate,
            _ => UnaryOperator::Not,
        };
        Ok(Expr::new(ExprKind::Unary(UnaryExpr::new(expr, op))))
    }
}

impl InfixRule {
    /// The expression that the token `op` makes of `left` and of what
    /// follows.
    pub fn parse<'a>(&self, parser: &mut EvalParser<'a>, left: Expr, op: Lexeme<'a>) -> (r: Result<
        Expr,
        Failure,
    >)
        ensures
            parsed(continued(*self, old(parser).stack(), left@, op@), r, final(parser).stack()),
            r is Ok ==> final(parser).stack().len() <= old(parser).stack().len(),
        decreases old(parser).tokens@.len(), 14nat,
    {
        match self {
            InfixRule::Operator(p) => p.parse(parser, left, op),
            InfixRule::Call(p) => p.parse(parser, left, op),
        }
    }
}

impl InfixOperatorParser {
    pub fn parse<'a>(&self, parser: &mut EvalParser<'a>, left: Expr, op: Lexeme<'a>) -> (r: Result<
        Expr,
        Failure,
    >)
        ensures
            parsed(
                continued(InfixRule::Operator(*self), old(parser).stack(), left@, op@),
                r,
                final(parser).stack(),
            ),
            r is Ok ==> final(parser).stack().len() <= old(parser).stack().len(),
        decreases old(parser).tokens@.len(), 13nat,
    {
        // Assume left associativity.
        let right = match parser.parse_precedence(self.precedence) {
            Ok(e) => e,
            Err(e) => {
                return Err(e);
            },
        };
        match BinaryOperator::from_token(op.token.token_type) {
            Some(operator) => Ok(
                Expr::new(ExprKind::Binary(BinaryExpr::new(left, right, operator))),
            ),
            None => Err(Failure::UnexpectedToken(op.token.token_type)),
        }
    }
}

impl CallParser {
    pub fn parse<'a>(&self, parser: &mut EvalParser<'a>, left: Expr, op: Lexeme<'a>) -> (r: Result<
        Expr,
        Failure,
    >)
        ensures
            parsed(
                continued(InfixRule::Call(*self), old(parser).stack(), left@, op@),
                r,
                final(parser).stack(),
            ),
            r is Ok ==> final(parser).stack().len() <= old(parser).stack().len(),
        decreases old(parser).tokens@.len(), 13nat,
    {
        let mut args: Vec<Expr> = Vec::new();
        proof {
            lemma_exprs_view(args@);
        }
        if !parser.match_(TokenType::RightParen) {
            let first = match parser.parse_expression() {
                Ok(e) => e,
                Err(e) => {
                    return Err(e);
                },
            };
            args = match parser.parse_arguments(first) {
                Ok(es) => es,
                Err(e) => {
                    return Err(e);
                },
            };
        }
        match parser.want(TokenType::RightParen) {
            Ok(_) => Ok(Expr::new(ExprKind::Call(CallExpr::new(left, args)))),
            Err(e) => Err(e),
        }
    }
}

impl PrefixParser for LiteralParser {
    open spec fn rule(&self) -> PrefixRule {
        PrefixRule::Literal(*self)
    }

    fn parse<'a>(&self, parser: &mut EvalParser<'a>, token: Lexeme<'a>) -> (r: Result<Expr, Failure>) {
        LiteralParser::parse(self, parser, token)
    }
}

impl PrefixParser for GroupingParser {
    open spec fn rule(&self) -> PrefixRule {
        PrefixRule::Grouping(*self)
    }

    fn parse<'a>(&self, parser: &mut EvalParser<'a>, token: Lexeme<'a>) -> (r: Result<Expr, Failure>) {
        GroupingParser::parse(self, parser, token)
    }
}

impl PrefixParser for IdentifierParser {
    open spec fn rule(&self) -> PrefixRule {
        PrefixRule::Identifier(*self)
    }

    fn parse<'a>(&self, parser: &mut EvalParser<'a>, token: Lexeme<'a>) -> (r: Result<Expr, Failure>) {
        IdentifierParser::parse(self, parser, token)
    }
}

impl PrefixParser for UnaryParser {
    open spec fn rule(&self) -> PrefixRule {
        PrefixRule::Unary(*self)
    }

    fn parse<'a>(&self, parser: &mut EvalParser<'a>, token: Lexeme<'a>) -> (r: Result<Expr, Failure>) {
        UnaryParser::parse(self, parser, token)
    }
}

impl InfixParser for InfixOperatorParser {
    open spec fn rule(&self) -> InfixRule {
        InfixRule::Operator(*self)
    }

    fn parse<'a>(&self, parser: &mut EvalParser<'a>, left: Expr, token: Lexeme<'a>) -> (r: Result<
        Expr,
        Failure,
    >) {
        InfixOperatorParser::parse(self, parser, left, token)
    }

    fn get_precedence(&self) -> (p: Precedence) {
        self.precedence
    }
}

impl InfixParser for CallParser {
    open spec fn rule(&self) -> InfixRule {
        InfixRule::Call(*self)
    }

    fn parse<'a>(&self, parser: &mut EvalParser<'a>, left: Expr, token: Lexeme<'a>) -> (r: Result<
        Expr,
        Failure,
    >) {
        CallParser::parse(self, parser, left, token)
    }

    fn get_precedence(&self) -> (p: Precedence) {
        Precedence::Call
    }
}

} // verus!
