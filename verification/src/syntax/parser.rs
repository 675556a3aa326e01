use crate::error::{ParserError, SyntaxError};
use crate::syntax::expr::{
    ArrayExpr, BinaryExpr, BinaryOperator, BlockExpr, CallExpr, Expr, ExprKind, exprs_view,
    ExprView, FunctionDeclaration, FunctionExpr, GetExpr, GroupingExpr, IfElseExpr, IfExpr,
    ImportExpr, lemma_exprs_view, LiteralExpr, names_view, PrintExpr, ReturnExpr, SequenceExpr,
    SetExpr, SubscriptExpr, UnaryExpr, UnaryOperator, VarAssignExpr, VarGetExpr, Variable,
    VarSetExpr, WhileExpr,
};
use crate::syntax::grammar::{
    accept, arguments, arm, block, check, conditional, continued, counting_loop, def,
    expression, expression_statement, for_loop, import, infix, items, Lex, literal, module, ONE,
    parameters, path, peek_type, precedence, prefix, print, return_statement, skip_lines,
    statements, statements_in_block, step, take, Taken, top_level, Tree, Trees, var, want,
    while_loop,
};
use crate::syntax::lexer::{Lexer, LexError, tokenize};
use crate::syntax::morpher::{cleaned, morph};
use crate::syntax::rule::{
    ArrayParser, CallParser, DotParser, get_infix_rule, get_precedence, get_prefix_rule,
    GroupingParser, IdentifierParser, InfixOperatorParser, InfixParser, InfixRule,
    LiteralParser, Precedence, PrefixParser, PrefixRule, SubscriptParser, UnaryParser,
};
use crate::syntax::token::{Keyword, Token, TokenType, TokenView};
use vstd::prelude::*;

verus! {

/// A parsed module: its top-level statements in source order.
#[derive(Debug, PartialEq)]
pub struct ModuleAst {
    pub exprs: Vec<Expr>,
}

impl ModuleAst {
    pub fn new(exprs: Vec<Expr>) -> (m: ModuleAst)
        ensures
            m.exprs == exprs,
    {
        ModuleAst { exprs }
    }

    pub fn exprs(&self) -> (e: &Vec<Expr>)
        ensures
            *e == self.exprs,
    {
        &self.exprs
    }
}

/// A token as the parser reads it: with the value of its text, if it is a
/// number.
#[derive(Debug, Clone, Copy)]
pub struct Lexeme<'a> {
    pub token: Token<'a>,
    pub number: u64,
}

impl<'a> View for Lexeme<'a> {
    type V = Lex;

    open spec fn view(&self) -> Lex {
        Lex { token: self.token@, number: self.number }
    }
}

/// Whether the parser returned what the grammar gives.
pub open spec fn parsed(rule: Tree, r: Result<Expr, ParserError>, after: Seq<Lex>) -> bool {
    match r {
        Ok(e) => rule == Ok::<_, ParserError>((e@, after)),
        Err(err) => rule == Err::<(ExprView, Seq<Lex>), _>(err),
    }
}

/// Whether the parser returned the trees that the grammar gives.
pub open spec fn parsed_all(rule: Trees, r: Result<Vec<Expr>, ParserError>, after: Seq<Lex>) -> bool {
    match r {
        Ok(es) => rule == Ok::<_, ParserError>((exprs_view(es@), after)),
        Err(err) => rule == Err::<(Seq<ExprView>, Seq<Lex>), _>(err),
    }
}

/// Whether the parser took the token that the grammar gives: from the
/// tokens `before` it went on to `after`. Where the grammar gives an
/// error, the tokens are as they were.
pub open spec fn taken(
    rule: Taken,
    r: Result<Lexeme, ParserError>,
    before: Seq<Lex>,
    after: Seq<Lex>,
) -> bool {
    match r {
        Ok(l) => rule == Ok::<_, ParserError>((l@, after)),
        Err(err) => rule == Err::<(Lex, Seq<Lex>), _>(err) && after == before,
    }
}

/// Whether `stack` holds the tokens `tokens`, the first on top, each
/// number with a value that `decode` gave for its text.
pub open spec fn reads<F: Fn(&str) -> u64>(decode: F, stack: Seq<Lex>, tokens: Seq<TokenView>) -> bool {
    &&& stack.len() == tokens.len()
    &&& forall|i: int|
        0 <= i < stack.len() ==> {
            &&& (#[trigger] stack[i]).token == tokens[tokens.len() - 1 - i]
            &&& if stack[i].token.token_type == TokenType::Number {
                exists|text: &str|
                    text@ == stack[i].token.source && call_ensures(decode, (text,), stack[i].number)
            } else {
                stack[i].number == 0
            }
        }
}

/// Reads a token sequence as a module.
pub struct GreenParser<'a> {
    pub tokens: Vec<Lexeme<'a>>,
}

impl<'a> GreenParser<'a> {
    /// The tokens that are left, the next one last.
    pub open spec fn stack(&self) -> Seq<Lex> {
        self.tokens@.map_values(|l: Lexeme| l@)
    }

    /// A parser at the start of `source`. The value of each number is what
    /// `decode` makes of its text.
    pub fn new<F: Fn(&str) -> u64>(source: &'a str, decode: &F) -> (r: Result<
        GreenParser<'a>,
        ParserError,
    >)
        requires
            forall|text: &str| call_requires(*decode, (text,)),
        ensures
            match r {
                Ok(p) => tokenize(source@) matches Ok(tokens) && reads(
                    *decode,
                    p.stack(),
                    cleaned(tokens, tokens.len() as int),
                ),
                Err(ParserError::UnexpectedChar(c)) => tokenize(source@) == Err::<
                    Seq<TokenView>,
                    _,
                >(LexError::UnexpectedChar(c)),
                Err(ParserError::UnterminatedString) => tokenize(source@) == Err::<
                    Seq<TokenView>,
                    _,
                >(LexError::UnterminatedString),
                Err(_) => false,
            },
    {
        let tokens = match Lexer::parse(source) {
            Ok(tokens) => tokens,
            Err(SyntaxError::UnexpectedChar(c)) => {
                return Err(ParserError::UnexpectedChar(c));
            },
            Err(_) => {
                return Err(ParserError::UnterminatedString);
            },
        };
        let tokens = morph(tokens);
        let ghost clean = tokens@.map_values(|t: Token| t@);
        let mut stack: Vec<Lexeme<'a>> = Vec::new();
        let mut i: usize = tokens.len();
        while i > 0
            invariant
                i <= tokens.len(),
                clean == tokens@.map_values(|t: Token| t@),
                stack@.len() == tokens.len() - i,
                forall|text: &str| call_requires(*decode, (text,)),
                forall|j: int|
                    0 <= j < stack@.len() ==> {
                        &&& (#[trigger] stack@[j])@.token == clean[clean.len() - 1 - j]
                        &&& if stack@[j]@.token.token_type == TokenType::Number {
                            exists|text: &str|
                                text@ == stack@[j]@.token.source && call_ensures(
                                    *decode,
                                    (text,),
                                    stack@[j]@.number,
                                )
                        } else {
                            stack@[j]@.number == 0
                        }
                    },
            decreases i,
        {
            i -= 1;
            let token = tokens[i];
            let number = match token.token_type {
                TokenType::Number => decode(token.source),
                _ => 0,
            };
            let ghost before = stack@;
            stack.push(Lexeme { token, number });
            proof {
                assert(clean[i as int] == token@);
                assert forall|j: int| 0 <= j < stack@.len() implies {
                    &&& (#[trigger] stack@[j])@.token == clean[clean.len() - 1 - j]
                    &&& if stack@[j]@.token.token_type == TokenType::Number {
                        exists|text: &str|
                            text@ == stack@[j]@.token.source && call_ensures(
                                *decode,
                                (text,),
                                stack@[j]@.number,
                            )
                    } else {
                        stack@[j]@.number == 0
                    }
                } by {
                    if j < before.len() {
                        assert(stack@[j] == before[j]);
                    } else {
                        if token.token_type == TokenType::Number {
                            assert(token.source@ == stack@[j]@.token.source && call_ensures(
                                *decode,
                                (token.source,),
                                stack@[j]@.number,
                            ));
                        }
                    }
                }
            }
        }
        let parser = GreenParser { tokens: stack };
        proof {
            assert forall|j: int| 0 <= j < parser.stack().len() implies {
                &&& (#[trigger] parser.stack()[j]).token == clean[clean.len() - 1 - j]
                &&& if parser.stack()[j].token.token_type == TokenType::Number {
                    exists|text: &str|
                        text@ == parser.stack()[j].token.source && call_ensures(
                            *decode,
                            (text,),
                            parser.stack()[j].number,
                        )
                } else {
                    parser.stack()[j].number == 0
                }
            } by {
                assert(parser.stack()[j] == stack@[j]@);
            }
        }
        Ok(parser)
    }

    /// The module that `source` spells. The value of each number is what
    /// `decode` makes of its text.
    pub fn parse<F: Fn(&str) -> u64>(source: &str, decode: &F) -> (r: Result<ModuleAst, ParserError>)
        requires
            forall|text: &str| call_requires(*decode, (text,)),
        ensures
            match tokenize(source@) {
                Err(LexError::UnexpectedChar(c)) => r matches Err(ParserError::UnexpectedChar(x))
                    && x == c,
                Err(LexError::UnterminatedString) => r matches Err(
                    ParserError::UnterminatedString,
                ),
                Ok(tokens) => exists|stack: Seq<Lex>|
                    reads(*decode, stack, cleaned(tokens, tokens.len() as int)) && (match r {
                        Ok(m) => #[trigger] module(stack, Seq::empty()) == Ok::<_, ParserError>(
                            exprs_view(m.exprs@),
                        ),
                        Err(e) => module(stack, Seq::empty()) == Err::<Seq<ExprView>, _>(e),
                    }),
            },
    {
        let mut parser = match GreenParser::new(source, decode) {
            Ok(parser) => parser,
            Err(e) => {
                return Err(e);
            },
        };
        parser.parse_module()
    }

    /// The module that the tokens spell: statements up to the end token.
    pub fn parse_module(&mut self) -> (r: Result<ModuleAst, ParserError>)
        ensures
            match r {
                Ok(m) => module(old(self).stack(), Seq::empty()) == Ok::<_, ParserError>(
                    exprs_view(m.exprs@),
                ),
                Err(e) => module(old(self).stack(), Seq::empty()) == Err::<Seq<ExprView>, _>(e),
            },
    {
        let mut exprs: Vec<Expr> = Vec::new();
        proof {
            lemma_exprs_view(exprs@);
        }
        loop
            invariant
                module(old(self).stack(), Seq::empty()) == module(self.stack(), exprs_view(exprs@)),
            decreases self.tokens@.len(),
        {
            match self.match_(TokenType::EOF) {
                Ok(true) => {
                    return Ok(ModuleAst::new(exprs));
                },
                Ok(false) => {},
                Err(e) => {
                    return Err(e);
                },
            }
            self.skip_lines();
            match self.parse_top_level_expression() {
                Ok(e) => {
                    proof {
                        lemma_exprs_view(exprs@);
                    }
                    exprs.push(e);
                },
                Err(e) => {
                    return Err(e);
                },
            }
        }
    }

    fn parse_top_level_expression(&mut self) -> (r: Result<Expr, ParserError>)
        ensures
            parsed(top_level(old(self).stack()), r, final(self).stack()),
            r is Ok ==> final(self).stack().len() < old(self).stack().len(),
        decreases old(self).tokens@.len(), 20nat,
    {
        match self.peek_type() {
            TokenType::Keyword(Keyword::Import) => self.parse_import(),
            TokenType::Keyword(Keyword::Print) => self.parse_print(),
            TokenType::Keyword(Keyword::Def) => self.declare_def(),
            TokenType::Keyword(Keyword::Var) => self.declare_var(),
            TokenType::Keyword(Keyword::If) => self.parse_if(),
            TokenType::Keyword(Keyword::While) => self.parse_while(),
            TokenType::Keyword(Keyword::For) => self.parse_for(),
            TokenType::Keyword(Keyword::Return) => self.parse_return(),
            TokenType::Keyword(Keyword::Do) => self.parse_block(),
            _ => self.parse_expression_statement(),
        }
    }

    /// An expression and the end of the line.
    pub fn parse_expression_statement(&mut self) -> (r: Result<Expr, ParserError>)
        ensures
            parsed(expression_statement(old(self).stack()), r, final(self).stack()),
            r is Ok ==> final(self).stack().len() < old(self).stack().len(),
        decreases old(self).tokens@.len(), 10nat,
    {
        let expr = match self.parse_expression() {
            Ok(e) => e,
            Err(e) => {
                return Err(e);
            },
        };
        match self.want(TokenType::Line) {
            Ok(_) => Ok(expr),
            Err(e) => Err(e),
        }
    }

    /// An expression.
    pub fn parse_expression(&mut self) -> (r: Result<Expr, ParserError>)
        ensures
            parsed(expression(old(self).stack()), r, final(self).stack()),
            r is Ok ==> final(self).stack().len() < old(self).stack().len(),
        decreases old(self).tokens@.len(), 9nat,
    {
        self.parse_precedence(Precedence::Assignment)
    }

    /// An expression of operators that bind tighter than `precedence`.
    pub fn parse_precedence(&mut self, precedence: Precedence) -> (r: Result<Expr, ParserError>)
        ensures
            parsed(self::precedence(old(self).stack(), precedence.rank()), r, final(self).stack()),
            r is Ok ==> final(self).stack().len() < old(self).stack().len(),
        decreases old(self).tokens@.len(), 8nat,
    {
        // Prefix
        let first = match self.take() {
            Ok(l) => l,
            Err(e) => {
                return Err(e);
            },
        };
        match get_prefix_rule(&first.token.token_type) {
            Some(rule) => {
                let left = match rule.parse(self, first) {
                    Ok(e) => e,
                    Err(e) => {
                        return Err(e);
                    },
                };
                // Infix
                self.parse_infix(left, precedence.level())
            },
            None => Err(ParserError::UnexpectedToken(first.token.token_type)),
        }
    }

    fn parse_infix(&mut self, left: Expr, precedence: u8) -> (r: Result<Expr, ParserError>)
        ensures
            parsed(infix(old(self).stack(), left@, precedence), r, final(self).stack()),
            r is Ok ==> final(self).stack().len() <= old(self).stack().len(),
        decreases old(self).tokens@.len(), 15nat,
    {
        if self.is_empty() {
            return Ok(left);
        }
        let current = match self.peek() {
            Ok(token) => get_precedence(token),
            Err(e) => {
                return Err(e);
            },
        };
        if precedence >= current.level() {
            return Ok(left);
        }
        let op = match self.take() {
            Ok(l) => l,
            Err(e) => {
                return Err(e);
            },
        };
        match get_infix_rule(&op.token.token_type) {
            Some(rule) => {
                let next = match rule.parse(self, left, op) {
                    Ok(e) => e,
                    Err(e) => {
                        return Err(e);
                    },
                };
                self.parse_infix(next, precedence)
            },
            None => self.parse_infix(left, precedence),
        }
    }

    /// The path of a module: the texts of the tokens up to the end of the
    /// line.
    fn parse_path(&mut self) -> (r: Result<String, ParserError>)
        ensures
            match r {
                Ok(p) => path(old(self).stack(), Seq::empty()) == Ok::<_, ParserError>(
                    (p@, final(self).stack()),
                ),
                Err(e) => path(old(self).stack(), Seq::empty()) == Err::<(Seq<char>, Seq<Lex>), _>(
                    e,
                ),
            },
            r is Ok ==> final(self).stack().len() <= old(self).stack().len(),
    {
        let mut dotted = String::new();
        loop
            invariant
                path(old(self).stack(), Seq::empty()) == path(self.stack(), dotted@),
                self.stack().len() <= old(self).stack().len(),
            decreases self.tokens@.len(),
        {
            match self.match_(TokenType::Line) {
                Ok(true) => {
                    return Ok(dotted);
                },
                Ok(false) => {},
                Err(e) => {
                    return Err(e);
                },
            }
            match self.take() {
                Ok(l) => {
                    dotted.append(l.token.source);
                },
                Err(e) => {
                    return Err(e);
                },
            }
        }
    }

    fn parse_import(&mut self) -> (r: Result<Expr, ParserError>)
        ensures
            parsed(import(old(self).stack()), r, final(self).stack()),
            r is Ok ==> final(self).stack().len() < old(self).stack().len(),
    {
        match self.want(TokenType::Keyword(Keyword::Import)) {
            Ok(_) => {},
            Err(e) => {
                return Err(e);
            },
        }
        // Consume tokens till end of line; this is the path of the module.
        match self.parse_path() {
            Ok(dotted) => Ok(Expr::import(ImportExpr::new(dotted))),
            Err(e) => Err(e),
        }
    }

    fn parse_print(&mut self) -> (r: Result<Expr, ParserError>)
        ensures
            parsed(print(old(self).stack()), r, final(self).stack()),
            r is Ok ==> final(self).stack().len() < old(self).stack().len(),
        decreases old(self).tokens@.len(), 18nat,
    {
        match self.want(TokenType::Keyword(Keyword::Print)) {
            Ok(_) => {},
            Err(e) => {
                return Err(e);
            },
        }
        match self.parse_expression_statement() {
            Ok(expr) => Ok(Expr::print(PrintExpr::new(expr))),
            Err(e) => Err(e),
        }
    }

    fn parse_parameters(&mut self) -> (r: Result<Vec<Variable>, ParserError>)
        ensures
            match r {
                Ok(ps) => parameters(old(self).stack(), Seq::empty()) == Ok::<_, ParserError>(
                    (names_view(ps@), final(self).stack()),
                ),
                Err(e) => parameters(old(self).stack(), Seq::empty()) == Err::<
                    (Seq<Seq<char>>, Seq<Lex>),
                    _,
                >(e),
            },
            r is Ok ==> final(self).stack().len() <= old(self).stack().len(),
    {
        let mut params: Vec<Variable> = Vec::new();
        proof {
            assert(names_view(params@) =~= Seq::<Seq<char>>::empty());
        }
        loop
            invariant
                parameters(old(self).stack(), Seq::empty()) == parameters(
                    self.stack(),
                    names_view(params@),
                ),
                self.stack().len() <= old(self).stack().len(),
            decreases self.tokens@.len(),
        {
            if self.peek_type() == TokenType::RightParen || self.peek_type() == TokenType::EOF {
                return Ok(params);
            }
            let param = match self.want(TokenType::Identifier) {
                Ok(l) => l,
                Err(e) => {
                    return Err(e);
                },
            };
            let ghost before = names_view(params@);
            params.push(Variable::new(param.token.source.to_owned()));
            proof {
                assert(names_view(params@) =~= before.push(param@.token.source));
            }
            if self.peek_type() == TokenType::Comma {
                match self.take() {
                    Ok(_) => {},
                    Err(e) => {
                        return Err(e);
                    },
                }
            } else {
                return Ok(params);
            }
        }
    }

    fn declare_def(&mut self) -> (r: Result<Expr, ParserError>)
        ensures
            parsed(def(old(self).stack()), r, final(self).stack()),
            r is Ok ==> final(self).stack().len() < old(self).stack().len(),
        decreases old(self).tokens@.len(), 18nat,
    {
        match self.take() {
            Ok(_) => {},
            Err(e) => {
                return Err(e);
            },
        }
        let identifier = match self.want(TokenType::Identifier) {
            Ok(l) => l,
            Err(e) => {
                return Err(e);
            },
        };
        match self.want(TokenType::LeftParen) {
            Ok(_) => {},
            Err(e) => {
                return Err(e);
            },
        }
        let parameters = match self.parse_parameters() {
            Ok(ps) => ps,
            Err(e) => {
                return Err(e);
            },
        };
        match self.want(TokenType::RightParen) {
            Ok(_) => {},
            Err(e) => {
                return Err(e);
            },
        }
        let body = match self.parse_statements_in_block() {
            Ok(es) => es,
            Err(e) => {
                return Err(e);
            },
        };
        let fun_decl = FunctionDeclaration::new(parameters, BlockExpr::new(body));
        Ok(
            Expr::new(
                ExprKind::Function(
                    FunctionExpr::new(Variable::new(identifier.token.source.to_owned()), fun_decl),
                ),
            ),
        )
    }

    fn declare_var(&mut self) -> (r: Result<Expr, ParserError>)
        ensures
            parsed(var(old(self).stack()), r, final(self).stack()),
            r is Ok ==> final(self).stack().len() < old(self).stack().len(),
        decreases old(self).tokens@.len(), 18nat,
    {
        // Consume "var"
        match self.take() {
            Ok(_) => {},
            Err(e) => {
                return Err(e);
            },
        }
        let identifier = match self.want(TokenType::Identifier) {
            Ok(l) => l,
            Err(e) => {
                return Err(e);
            },
        };
        let var = Variable::new(identifier.token.source.to_owned());
        let has_initializer = match self.match_(TokenType::Equal) {
            Ok(b) => b,
            Err(e) => {
                return Err(e);
            },
        };
        let initializer = if has_initializer {
            match self.parse_expression_statement() {
                Ok(e) => e,
                Err(e) => {
                    return Err(e);
                },
            }
        } else {
            match self.want(TokenType::Line) {
                Ok(_) => {},
                Err(e) => {
                    return Err(e);
                },
            }
            Expr::nil()
        };
        Ok(Expr::var_assign(VarAssignExpr::new(var, initializer)))
    }

    /// Statements up to `end`, and up to `else` where `at_else` says so.
    fn parse_statements(&mut self, at_else: bool) -> (r: Result<Vec<Expr>, ParserError>)
        ensures
            parsed_all(statements(old(self).stack(), Seq::empty(), at_else), r, final(self).stack()),
            r is Ok ==> final(self).stack().len() <= old(self).stack().len(),
        decreases old(self).tokens@.len(), 22nat,
    {
        let mut exprs: Vec<Expr> = Vec::new();
        proof {
            lemma_exprs_view(exprs@);
        }
        loop
            invariant
                statements(old(self).stack(), Seq::empty(), at_else) == statements(
                    self.stack(),
                    exprs_view(exprs@),
                    at_else,
                ),
                self.stack().len() <= old(self).stack().len(),
            decreases self.tokens@.len(),
        {
            let next = self.peek_type();
            if next == TokenType::Keyword(Keyword::End) || next == TokenType::EOF || (at_else
                && next == TokenType::Keyword(Keyword::Else)) {
                return Ok(exprs);
            }
            match self.parse_top_level_expression() {
                Ok(e) => {
                    proof {
                        lemma_exprs_view(exprs@);
                    }
                    exprs.push(e);
                },
                Err(e) => {
                    return Err(e);
                },
            }
        }
    }

    /// The statements of a block, behind the token that opens it.
    fn parse_statements_in_block(&mut self) -> (r: Result<Vec<Expr>, ParserError>)
        ensures
            parsed_all(statements_in_block(old(self).stack()), r, final(self).stack()),
            r is Ok ==> final(self).stack().len() < old(self).stack().len(),
        decreases old(self).tokens@.len(), 16nat,
    {
        // Consume 'do'
        match self.take() {
            Ok(_) => {},
            Err(e) => {
                return Err(e);
            },
        }
        match self.match_(TokenType::Line) {
            Ok(_) => {},
            Err(e) => {
                return Err(e);
            },
        }
        let exprs = match self.parse_statements(false) {
            Ok(es) => es,
            Err(e) => {
                return Err(e);
            },
        };
        match self.want(TokenType::Keyword(Keyword::End)) {
            Ok(_) => {},
            Err(e) => {
                return Err(e);
            },
        }
        match self.want(TokenType::Line) {
            Ok(_) => {},
            Err(e) => {
                return Err(e);
            },
        }
        Ok(exprs)
    }

    fn parse_block(&mut self) -> (r: Result<Expr, ParserError>)
        ensures
            parsed(block(old(self).stack()), r, final(self).stack()),
            r is Ok ==> final(self).stack().len() < old(self).stack().len(),
        decreases old(self).tokens@.len(), 18nat,
    {
        match self.parse_statements_in_block() {
            Ok(exprs) => Ok(Expr::block(BlockExpr::new(exprs))),
            Err(e) => Err(e),
        }
    }

    /// The first arm of a conditional, and whether `else` ended it.
    fn parse_arm(&mut self) -> (r: Result<(Vec<Expr>, bool), ParserError>)
        ensures
            match r {
                Ok((es, with_else)) => arm(old(self).stack()) == Ok::<_, ParserError>(
                    (exprs_view(es@), with_else, final(self).stack()),
                ),
                Err(e) => arm(old(self).stack()) == Err::<(Seq<ExprView>, bool, Seq<Lex>), _>(e),
            },
            r is Ok ==> final(self).stack().len() < old(self).stack().len(),
        decreases old(self).tokens@.len(), 16nat,
    {
        match self.take() {
            Ok(_) => {},
            Err(e) => {
                return Err(e);
            },
        }
        match self.match_(TokenType::Line) {
            Ok(_) => {},
            Err(e) => {
                return Err(e);
            },
        }
        let exprs = match self.parse_statements(true) {
            Ok(es) => es,
            Err(e) => {
                return Err(e);
            },
        };
        if self.peek_type() == TokenType::Keyword(Keyword::Else) {
            match self.take() {
                Ok(_) => Ok((exprs, true)),
                Err(e) => Err(e),
            }
        } else {
            match self.want(TokenType::Keyword(Keyword::End)) {
                Ok(_) => {},
                Err(e) => {
                    return Err(e);
                },
            }
            match self.want(TokenType::Line) {
                Ok(_) => Ok((exprs, false)),
                Err(e) => Err(e),
            }
        }
    }

    fn parse_if(&mut self) -> (r: Result<Expr, ParserError>)
        ensures
            parsed(conditional(old(self).stack()), r, final(self).stack()),
            r is Ok ==> final(self).stack().len() < old(self).stack().len(),
        decreases old(self).tokens@.len(), 18nat,
    {
        match self.take() {
            Ok(_) => {},
            Err(e) => {
                return Err(e);
            },
        }
        let cond = match self.parse_expression() {
            Ok(e) => e,
            Err(e) => {
                return Err(e);
            },
        };
        let (then, with_else) = match self.parse_arm() {
            Ok(pair) => pair,
            Err(e) => {
                return Err(e);
            },
        };
        if with_else {
            let else_clause = match self.parse_statements_in_block() {
                Ok(es) => es,
                Err(e) => {
                    return Err(e);
                },
            };
            Ok(
                Expr::if_else(
                    IfElseExpr::new(cond, BlockExpr::new(then), BlockExpr::new(else_clause)),
                ),
            )
        } else {
            let sequence = Expr::sequence(SequenceExpr::new(then));
            Ok(Expr::new(ExprKind::If(IfExpr::new(cond, sequence))))
        }
    }

    fn parse_while(&mut self) -> (r: Result<Expr, ParserError>)
        ensures
            parsed(while_loop(old(self).stack()), r, final(self).stack()),
            r is Ok ==> final(self).stack().len() < old(self).stack().len(),
        decreases old(self).tokens@.len(), 18nat,
    {
        match self.want(TokenType::Keyword(Keyword::While)) {
            Ok(_) => {},
            Err(e) => {
                return Err(e);
            },
        }
        let cond = match self.parse_expression() {
            Ok(e) => e,
            Err(e) => {
                return Err(e);
            },
        };
        let body = match self.parse_block() {
            Ok(e) => e,
            Err(e) => {
                return Err(e);
            },
        };
        Ok(Expr::while_(WhileExpr::new(cond, body)))
    }

    /// The step of a `for` loop.
    fn parse_step(&mut self) -> (r: Result<u64, ParserError>)
        ensures
            match r {
                Ok(n) => step(old(self).stack()) == Ok::<_, ParserError>((n, final(self).stack())),
                Err(e) => step(old(self).stack()) == Err::<(u64, Seq<Lex>), _>(e),
            },
            r is Ok ==> final(self).stack().len() <= old(self).stack().len(),
    {
        match self.match_(TokenType::Keyword(Keyword::Step)) {
            Ok(true) => match self.want(TokenType::Number) {
                Ok(l) => Ok(l.number),
                Err(e) => Err(e),
            },
            Ok(false) => Ok(ONE),
            Err(e) => Err(e),
        }
    }

    fn parse_for(&mut self) -> (r: Result<Expr, ParserError>)
        ensures
            parsed(for_loop(old(self).stack()), r, final(self).stack()),
            r is Ok ==> final(self).stack().len() < old(self).stack().len(),
        decreases old(self).tokens@.len(), 18nat,
    {
        match self.want(TokenType::Keyword(Keyword::For)) {
            Ok(_) => {},
            Err(e) => {
                return Err(e);
            },
        }
        // Initializer
        let var_ident = match self.want(TokenType::Identifier) {
            Ok(l) => l,
            Err(e) => {
                return Err(e);
            },
        };
        // Condition
        match self.want(TokenType::Keyword(Keyword::In)) {
            Ok(_) => {},
            Err(e) => {
                return Err(e);
            },
        }
        let x_init = match self.want(TokenType::Number) {
            Ok(l) => l,
            Err(e) => {
                return Err(e);
            },
        };
        let op = match self.peek_type() {
            TokenType::Keyword(Keyword::To) => BinaryOperator::LessThan,
            TokenType::Keyword(Keyword::DownTo) => BinaryOperator::GreaterThan,
            other => {
                return Err(ParserError::Expect(TokenType::Keyword(Keyword::To), other));
            },
        };
        match self.take() {
            Ok(_) => {},
            Err(e) => {
                return Err(e);
            },
        }
        let max_val = match self.want(TokenType::Number) {
            Ok(l) => l,
            Err(e) => {
                return Err(e);
            },
        };
        let step_incr = match self.parse_step() {
            Ok(n) => n,
            Err(e) => {
                return Err(e);
            },
        };
        // Parse body
        let body = match self.parse_block() {
            Ok(e) => e,
            Err(e) => {
                return Err(e);
            },
        };
        Ok(
            GreenParser::counting_loop(
                var_ident.token.source,
                x_init.number,
                op,
                max_val.number,
                step_incr,
                body,
            ),
        )
    }

    /// The loop that a `for` statement stands for.
    fn counting_loop(
        name: &str,
        from: u64,
        compare: BinaryOperator,
        to: u64,
        step: u64,
        body: Expr,
    ) -> (e: Expr)
        ensures
            e@ == counting_loop(name@, from, compare, to, step, body@),
    {
        let var_decl = Expr::new(
            ExprKind::VarAssign(
                VarAssignExpr::new(
                    Variable::new(name.to_owned()),
                    Expr::new(ExprKind::Literal(LiteralExpr::Number(from))),
                ),
            ),
        );
        let x1 = Expr::new(ExprKind::VarGet(VarGetExpr::new(Variable::new(name.to_owned()))));
        let limit = Expr::new(ExprKind::Literal(LiteralExpr::Number(to)));
        let condition = Expr::new(ExprKind::Binary(BinaryExpr::new(x1, limit, compare)));
        let incr_op = match compare {
            BinaryOperator::LessThan => BinaryOperator::Add,
            _ => BinaryOperator::Subtract,
        };
        let x2 = Expr::new(ExprKind::VarGet(VarGetExpr::new(Variable::new(name.to_owned()))));
        let by = Expr::new(ExprKind::Literal(LiteralExpr::Number(step)));
        let sum = Expr::new(ExprKind::Binary(BinaryExpr::new(x2, by, incr_op)));
        let incr_expr = Expr::new(
            ExprKind::VarSet(VarSetExpr::new(Variable::new(name.to_owned()), sum)),
        );
        let mut inner: Vec<Expr> = Vec::new();
        inner.push(body);
        inner.push(incr_expr);
        proof {
            lemma_exprs_view(inner@);
            assert(exprs_view(inner@) =~= seq![body@, incr_expr@]);
        }
        let loop_body = Expr::new(ExprKind::Sequence(SequenceExpr::new(inner)));
        let while_expr = Expr::while_(WhileExpr::new(condition, loop_body));
        let mut sequence: Vec<Expr> = Vec::new();
        sequence.push(var_decl);
        sequence.push(while_expr);
        proof {
            lemma_exprs_view(sequence@);
            assert(exprs_view(sequence@) =~= seq![var_decl@, while_expr@]);
        }
        Expr::new(ExprKind::Sequence(SequenceExpr::new(sequence)))
    }

    fn parse_return(&mut self) -> (r: Result<Expr, ParserError>)
        ensures
            parsed(return_statement(old(self).stack()), r, final(self).stack()),
            r is Ok ==> final(self).stack().len() < old(self).stack().len(),
        decreases old(self).tokens@.len(), 18nat,
    {
        match self.want(TokenType::Keyword(Keyword::Return)) {
            Ok(_) => {},
            Err(e) => {
                return Err(e);
            },
        }
        let ends = match self.match_(TokenType::Line) {
            Ok(b) => b,
            Err(e) => {
                return Err(e);
            },
        };
        let return_expr = if ends {
            None
        } else {
            match self.parse_top_level_expression() {
                Ok(e) => Some(e),
                Err(e) => {
                    return Err(e);
                },
            }
        };
        Ok(Expr::return_(ReturnExpr::new(return_expr)))
    }

    fn skip_lines(&mut self)
        ensures
            final(self).stack() == skip_lines(old(self).stack()),
            final(self).stack().len() <= old(self).stack().len(),
    {
        while self.tokens.len() > 0 && self.peek_type() == TokenType::Line
            invariant
                skip_lines(self.stack()) == skip_lines(old(self).stack()),
                self.stack().len() <= old(self).stack().len(),
            decreases self.tokens@.len(),
        {
            let _ = self.take();
        }
    }

    /// Takes the next token if it has the type `token_type`, and says
    /// whether it did.
    pub fn match_(&mut self, token_type: TokenType) -> (r: Result<bool, ParserError>)
        ensures
            match r {
                Ok(b) => accept(old(self).stack(), token_type) == Ok::<_, ParserError>(
                    (b, final(self).stack()),
                ),
                Err(e) => accept(old(self).stack(), token_type) == Err::<(bool, Seq<Lex>), _>(e)
                    && final(self).stack() == old(self).stack(),
            },
            r is Ok ==> final(self).stack().len() <= old(self).stack().len(),
            r == Ok::<_, ParserError>(true) ==> final(self).stack().len() < old(self).stack().len(),
    {
        if self.peek_type() != token_type {
            return Ok(false);
        }
        match self.take() {
            Ok(_) => Ok(true),
            Err(e) => Err(e),
        }
    }

    /// Whether the next token has the type `token_type`.
    pub fn check(&mut self, token_type: TokenType) -> (r: Result<bool, ParserError>)
        ensures
            r == Ok::<_, ParserError>(check(old(self).stack(), token_type)),
            final(self).stack() == old(self).stack(),
    {
        Ok(self.peek_type() == token_type)
    }

    /// The type of the next token; where none is left, that of the end
    /// token.
    fn peek_type(&self) -> (ty: TokenType)
        ensures
            ty == peek_type(self.stack()),
    {
        if self.tokens.len() == 0 {
            return TokenType::EOF;
        }
        self.tokens[self.tokens.len() - 1].token.token_type
    }

    /// The next token.
    fn peek(&self) -> (r: Result<&Token<'a>, ParserError>)
        ensures
            match r {
                Ok(t) => self.stack().len() > 0 && t@ == self.stack().last().token,
                Err(e) => self.stack().len() == 0 && e == ParserError::UnexpectedEOF,
            },
    {
        if self.tokens.len() == 0 {
            Err(ParserError::UnexpectedEOF)
        } else {
            Ok(&self.tokens[self.tokens.len() - 1].token)
        }
    }

    /// Takes the next token, which must have the type `expect`. Where it
    /// has another type, or none is left, no token is consumed.
    pub fn expect(&mut self, expect: TokenType) -> (r: Result<Token<'a>, ParserError>)
        ensures
            match r {
                Ok(t) => want(old(self).stack(), expect) matches Ok((l, rest)) && l.token == t@
                    && rest == final(self).stack(),
                Err(e) => want(old(self).stack(), expect) == Err::<(Lex, Seq<Lex>), _>(e)
                    && final(self).stack() == old(self).stack(),
            },
            r is Ok ==> final(self).stack().len() < old(self).stack().len(),
    {
        match self.want(expect) {
            Ok(l) => Ok(l.token),
            Err(e) => Err(e),
        }
    }

    /// Takes the next token. Where none is left, that is an error.
    pub fn consume(&mut self) -> (r: Result<Token<'a>, ParserError>)
        ensures
            match r {
                Ok(t) => take(old(self).stack()) matches Ok((l, rest)) && l.token == t@ && rest
                    == final(self).stack(),
                Err(e) => take(old(self).stack()) == Err::<(Lex, Seq<Lex>), _>(e)
                    && final(self).stack() == old(self).stack(),
            },
            r is Ok ==> final(self).stack().len() < old(self).stack().len(),
    {
        match self.take() {
            Ok(l) => Ok(l.token),
            Err(e) => Err(e),
        }
    }

    /// Takes the next token, with its number.
    fn take(&mut self) -> (r: Result<Lexeme<'a>, ParserError>)
        ensures
            taken(take(old(self).stack()), r, old(self).stack(), final(self).stack()),
            r is Ok ==> final(self).stack().len() + 1 == old(self).stack().len(),
    {
        match self.tokens.pop() {
            Some(l) => {
                proof {
                    assert(self.stack() =~= old(self).stack().drop_last());
                }
                Ok(l)
            },
            None => Err(ParserError::UnexpectedEOF),
        }
    }

    /// Takes the next token, with its number; it must have the type
    /// `expect`.
    fn want(&mut self, expect: TokenType) -> (r: Result<Lexeme<'a>, ParserError>)
        ensures
            taken(want(old(self).stack(), expect), r, old(self).stack(), final(self).stack()),
            r is Ok ==> final(self).stack().len() + 1 == old(self).stack().len(),
    {
        let actual = self.peek_type();
        if actual == expect {
            self.take()
        } else {
            Err(ParserError::Expect(expect, actual))
        }
    }

    fn is_empty(&self) -> (b: bool)
        ensures
            b == (self.stack().len() == 0),
    {
        self.tokens.len() == 0
    }

    /// The elements of an array literal, up to and with `]`.
    fn parse_items(&mut self) -> (r: Result<Vec<Expr>, ParserError>)
        ensures
            parsed_all(items(old(self).stack(), Seq::empty()), r, final(self).stack()),
            r is Ok ==> final(self).stack().len() <= old(self).stack().len(),
        decreases old(self).tokens@.len(), 12nat,
    {
        let mut exprs: Vec<Expr> = Vec::new();
        proof {
            lemma_exprs_view(exprs@);
        }
        loop
            invariant
                items(old(self).stack(), Seq::empty()) == items(self.stack(), exprs_view(exprs@)),
                self.stack().len() <= old(self).stack().len(),
            decreases self.tokens@.len(),
        {
            match self.match_(TokenType::RightBracket) {
                Ok(true) => {
                    // trailing comma case
                    return Ok(exprs);
                },
                Ok(false) => {},
                Err(e) => {
                    return Err(e);
                },
            }
            let expr = match self.parse_precedence(Precedence::Or) {
                Ok(e) => e,
                Err(e) => {
                    return Err(e);
                },
            };
            proof {
                lemma_exprs_view(exprs@);
            }
            exprs.push(expr);
            match self.match_(TokenType::Comma) {
                Ok(true) => {},
                Ok(false) => {
                    return match self.want(TokenType::RightBracket) {
                        Ok(_) => Ok(exprs),
                        Err(e) => Err(e),
                    };
                },
                Err(e) => {
                    return Err(e);
                },
            }
        }
    }

    /// The arguments of a call behind the first.
    fn parse_arguments(&mut self, first: Expr) -> (r: Result<Vec<Expr>, ParserError>)
        ensures
            parsed_all(arguments(old(self).stack(), seq![first@]), r, final(self).stack()),
            r is Ok ==> final(self).stack().len() <= old(self).stack().len(),
        decreases old(self).tokens@.len(), 12nat,
    {
        let mut args: Vec<Expr> = Vec::new();
        proof {
            lemma_exprs_view(args@);
        }
        args.push(first);
        proof {
            assert(exprs_view(args@) =~= seq![first@]);
        }
        loop
            invariant
                arguments(old(self).stack(), seq![first@]) == arguments(
                    self.stack(),
                    exprs_view(args@),
                ),
                self.stack().len() <= old(self).stack().len(),
            decreases self.tokens@.len(),
        {
            match self.match_(TokenType::Comma) {
                Ok(true) => {},
                Ok(false) => {
                    return Ok(args);
                },
                Err(e) => {
                    return Err(e);
                },
            }
            let arg = match self.parse_expression() {
                Ok(e) => e,
                Err(e) => {
                    return Err(e);
                },
            };
            proof {
                lemma_exprs_view(args@);
            }
            args.push(arg);
        }
    }
}

impl PrefixRule {
    /// The expression that the token `first` starts.
    pub fn parse<'a>(&self, parser: &mut GreenParser<'a>, first: Lexeme<'a>) -> (r: Result<
        Expr,
        ParserError,
    >)
        ensures
            parsed(prefix(*self, old(parser).stack(), first@), r, final(parser).stack()),
            r is Ok ==> final(parser).stack().len() <= old(parser).stack().len(),
        decreases old(parser).tokens@.len(), 14nat,
    {
        match self {
            PrefixRule::Literal(p) => p.parse(parser, first),
            PrefixRule::Grouping(p) => p.parse(parser, first),
            PrefixRule::Identifier(p) => p.parse(parser, first),
            PrefixRule::Unary(p) => p.parse(parser, first),
            PrefixRule::Array(p) => p.parse(parser, first),
        }
    }
}

impl LiteralParser {
    pub fn parse<'a>(&self, parser: &mut GreenParser<'a>, first: Lexeme<'a>) -> (r: Result<
        Expr,
        ParserError,
    >)
        ensures
            parsed(
                prefix(PrefixRule::Literal(*self), old(parser).stack(), first@),
                r,
                final(parser).stack(),
            ),
            final(parser).stack() == old(parser).stack(),
    {
        let op = match first.token.token_type {
            TokenType::Number => LiteralExpr::Number(first.number),
            TokenType::String => LiteralExpr::String(first.token.source.to_owned()),
            TokenType::Keyword(Keyword::True) => LiteralExpr::True,
            _ => LiteralExpr::False,
        };
        Ok(Expr::new(ExprKind::Literal(op)))
    }
}

impl GroupingParser {
    pub fn parse<'a>(&self, parser: &mut GreenParser<'a>, first: Lexeme<'a>) -> (r: Result<
        Expr,
        ParserError,
    >)
        ensures
            parsed(
                prefix(PrefixRule::Grouping(*self), old(parser).stack(), first@),
                r,
                final(parser).stack(),
            ),
            r is Ok ==> final(parser).stack().len() <= old(parser).stack().len(),
        decreases old(parser).tokens@.len(), 13nat,
    {
        let expr = match parser.parse_expression() {
            Ok(e) => e,
            Err(e) => {
                return Err(e);
            },
        };
        match parser.want(TokenType::RightParen) {
            Ok(_) => Ok(Expr::new(ExprKind::Grouping(GroupingExpr::new(expr)))),
            Err(e) => Err(e),
        }
    }
}

impl IdentifierParser {
    pub fn parse<'a>(&self, parser: &mut GreenParser<'a>, first: Lexeme<'a>) -> (r: Result<
        Expr,
        ParserError,
    >)
        ensures
            parsed(
                prefix(PrefixRule::Identifier(*self), old(parser).stack(), first@),
                r,
                final(parser).stack(),
            ),
            r is Ok ==> final(parser).stack().len() <= old(parser).stack().len(),
        decreases old(parser).tokens@.len(), 13nat,
    {
        let var = Variable::new(first.token.source.to_owned());
        match parser.match_(TokenType::Equal) {
            Ok(true) => match parser.parse_expression() {
                Ok(initializer) => Ok(Expr::var_set(VarSetExpr::new(var, initializer))),
                Err(e) => Err(e),
            },
            Ok(false) => Ok(Expr::var_get(VarGetExpr::new(var))),
            Err(e) => Err(e),
        }
    }
}

impl UnaryParser {
    pub fn parse<'a>(&self, parser: &mut GreenParser<'a>, first: Lexeme<'a>) -> (r: Result<
        Expr,
        ParserError,
    >)
        ensures
            parsed(
                prefix(PrefixRule::Unary(*self), old(parser).stack(), first@),
                r,
                final(parser).stack(),
            ),
            r is Ok ==> final(parser).stack().len() <= old(parser).stack().len(),
        decreases old(parser).tokens@.len(), 13nat,
    {
        let expr = match parser.parse_expression() {
            Ok(e) => e,
            Err(e) => {
                return Err(e);
            },
        };
        let op = match first.token.token_type {
            TokenType::Minus => UnaryOperator::Negate,
            _ => UnaryOperator::Not,
        };
        Ok(Expr::new(ExprKind::Unary(UnaryExpr::new(expr, op))))
    }
}

impl ArrayParser {
    pub fn parse<'a>(&self, parser: &mut GreenParser<'a>, first: Lexeme<'a>) -> (r: Result<
        Expr,
        ParserError,
    >)
        ensures
            parsed(
                prefix(PrefixRule::Array(*self), old(parser).stack(), first@),
                r,
                final(parser).stack(),
            ),
            r is Ok ==> final(parser).stack().len() <= old(parser).stack().len(),
        decreases old(parser).tokens@.len(), 13nat,
    {
        match parser.parse_items() {
            Ok(exprs) => Ok(Expr::new(ExprKind::Array(ArrayExpr::new(Some(exprs))))),
            Err(e) => Err(e),
        }
    }
}

impl InfixRule {
    /// The expression that the token `op` makes of `left` and of what
    /// follows.
    pub fn parse<'a>(&self, parser: &mut GreenParser<'a>, left: Expr, op: Lexeme<'a>) -> (r:
        Result<Expr, ParserError>)
        ensures
            parsed(continued(*self, old(parser).stack(), left@, op@), r, final(parser).stack()),
            r is Ok ==> final(parser).stack().len() <= old(parser).stack().len(),
        decreases old(parser).tokens@.len(), 14nat,
    {
        match self {
            InfixRule::Operator(p) => p.parse(parser, left, op),
            InfixRule::Call(p) => p.parse(parser, left, op),
            InfixRule::Subscript(p) => p.parse(parser, left, op),
            InfixRule::Dot(p) => p.parse(parser, left, op),
        }
    }
}

impl InfixOperatorParser {
    pub fn parse<'a>(&self, parser: &mut GreenParser<'a>, left: Expr, op: Lexeme<'a>) -> (r:
        Result<Expr, ParserError>)
        ensures
            parsed(
                continued(InfixRule::Operator(*self), old(parser).stack(), left@, op@),
                r,
                final(parser).stack(),
            ),
            r is Ok ==> final(parser).stack().len() <= old(parser).stack().len(),
        decreases old(parser).tokens@.len(), 13nat,
    {
        // Assume left associativity.
        let right = match parser.parse_precedence(self.precedence) {
            Ok(e) => e,
            Err(e) => {
                return Err(e);
            },
        };
        match BinaryOperator::from_token(op.token.token_type) {
            Some(operator) => Ok(
                Expr::new(ExprKind::Binary(BinaryExpr::new(left, right, operator))),
            ),
            None => Err(ParserError::UnexpectedToken(op.token.token_type)),
        }
    }
}

impl CallParser {
    pub fn parse<'a>(&self, parser: &mut GreenParser<'a>, left: Expr, op: Lexeme<'a>) -> (r:
        Result<Expr, ParserError>)
        ensures
            parsed(
                continued(InfixRule::Call(*self), old(parser).stack(), left@, op@),
                r,
                final(parser).stack(),
            ),
            r is Ok ==> final(parser).stack().len() <= old(parser).stack().len(),
        decreases old(parser).tokens@.len(), 13nat,
    {
        let mut args: Vec<Expr> = Vec::new();
        proof {
            lemma_exprs_view(args@);
        }
        if parser.peek_type() != TokenType::RightParen {
            let first = match parser.parse_expression() {
                Ok(e) => e,
                Err(e) => {
                    return Err(e);
                },
            };
            args = match parser.parse_arguments(first) {
                Ok(es) => es,
                Err(e) => {
                    return Err(e);
                },
            };
        }
        match parser.want(TokenType::RightParen) {
            Ok(_) => Ok(Expr::new(ExprKind::Call(CallExpr::new(left, args)))),
            Err(e) => Err(e),
        }
    }
}

impl SubscriptParser {
    pub fn parse<'a>(&self, parser: &mut GreenParser<'a>, left: Expr, op: Lexeme<'a>) -> (r:
        Result<Expr, ParserError>)
        ensures
            parsed(
                continued(InfixRule::Subscript(*self), old(parser).stack(), left@, op@),
                r,
                final(parser).stack(),
            ),
            r is Ok ==> final(parser).stack().len() <= old(parser).stack().len(),
        decreases old(parser).tokens@.len(), 13nat,
    {
        let index = match parser.parse_precedence(Precedence::Or) {
            Ok(e) => e,
            Err(e) => {
                return Err(e);
            },
        };
        match parser.want(TokenType::RightBracket) {
            Ok(_) => {},
            Err(e) => {
                return Err(e);
            },
        }
        let expr = match parser.match_(TokenType::Equal) {
            Ok(true) => match parser.parse_expression() {
                Ok(e) => Some(e),
                Err(e) => {
                    return Err(e);
                },
            },
            Ok(false) => None,
            Err(e) => {
                return Err(e);
            },
        };
        Ok(Expr::new(ExprKind::Subscript(SubscriptExpr::new(left, index, expr))))
    }
}

impl DotParser {
    pub fn parse<'a>(&self, parser: &mut GreenParser<'a>, left: Expr, op: Lexeme<'a>) -> (r:
        Result<Expr, ParserError>)
        ensures
            parsed(
                continued(InfixRule::Dot(*self), old(parser).stack(), left@, op@),
                r,
                final(parser).stack(),
            ),
            r is Ok ==> final(parser).stack().len() <= old(parser).stack().len(),
        decreases old(parser).tokens@.len(), 13nat,
    {
        let property = match parser.want(TokenType::Identifier) {
            Ok(l) => l,
            Err(e) => {
                return Err(e);
            },
        };
        match parser.match_(TokenType::Equal) {
            Ok(true) => match parser.parse_expression() {
                Ok(value) => Ok(
                    Expr::set_property(
                        SetExpr::new(left, value, property.token.source.to_owned()),
                    ),
                ),
                Err(e) => Err(e),
            },
            Ok(false) => Ok(
                Expr::get_property(GetExpr::new(left, property.token.source.to_owned())),
            ),
            Err(e) => Err(e),
        }
    }
}

impl PrefixParser for LiteralParser {
    open spec fn rule(&self) -> PrefixRule {
        PrefixRule::Literal(*self)
    }

    fn parse<'a>(&self, parser: &mut GreenParser<'a>, token: Lexeme<'a>) -> (r: Result<Expr, ParserError>) {
        LiteralParser::parse(self, parser, token)
    }
}

impl PrefixParser for GroupingParser {
    open spec fn rule(&self) -> PrefixRule {
        PrefixRule::Grouping(*self)
    }

    fn parse<'a>(&self, parser: &mut GreenParser<'a>, token: Lexeme<'a>) -> (r: Result<Expr, ParserError>) {
        GroupingParser::parse(self, parser, token)
    }
}

impl PrefixParser for IdentifierParser {
    open spec fn rule(&self) -> PrefixRule {
        PrefixRule::Identifier(*self)
    }

    fn parse<'a>(&self, parser: &mut GreenParser<'a>, token: Lexeme<'a>) -> (r: Result<Expr, ParserError>) {
        IdentifierParser::parse(self, parser, token)
    }
}

impl PrefixParser for UnaryParser {
    open spec fn rule(&self) -> PrefixRule {
        PrefixRule::Unary(*self)
    }

    fn parse<'a>(&self, parser: &mut GreenParser<'a>, token: Lexeme<'a>) -> (r: Result<Expr, ParserError>) {
        UnaryParser::parse(self, parser, token)
    }
}

impl PrefixParser for ArrayParser {
    open spec fn rule(&self) -> PrefixRule {
        PrefixRule::Array(*self)
    }

    fn parse<'a>(&self, parser: &mut GreenParser<'a>, token: Lexeme<'a>) -> (r: Result<Expr, ParserError>) {
        ArrayParser::parse(self, parser, token)
    }
}

impl InfixParser for InfixOperatorParser {
    open spec fn rule(&self) -> InfixRule {
        InfixRule::Operator(*self)
    }

    fn parse<'a>(&self, parser: &mut GreenParser<'a>, left: Expr, token: Lexeme<'a>) -> (r: Result<
        Expr,
        ParserError,
    >) {
        InfixOperatorParser::parse(self, parser, left, token)
    }

    fn get_precedence(&self) -> (p: Precedence) {
        self.precedence
    }
}

impl InfixParser for CallParser {
    open spec fn rule(&self) -> InfixRule {
        InfixRule::Call(*self)
    }

    fn parse<'a>(&self, parser: &mut GreenParser<'a>, left: Expr, token: Lexeme<'a>) -> (r: Result<
        Expr,
        ParserError,
    >) {
        CallParser::parse(self, parser, left, token)
    }

    fn get_precedence(&self) -> (p: Precedence) {
        Precedence::Call
    }
}

impl InfixParser for SubscriptParser {
    open spec fn rule(&self) -> InfixRule {
        InfixRule::Subscript(*self)
    }

    fn parse<'a>(&self, parser: &mut GreenParser<'a>, left: Expr, token: Lexeme<'a>) -> (r: Result<
        Expr,
        ParserError,
    >) {
        SubscriptParser::parse(self, parser, left, token)
    }

    fn get_precedence(&self) -> (p: Precedence) {
        Precedence::Subscript
    }
}

impl InfixParser for DotParser {
    open spec fn rule(&self) -> InfixRule {
        InfixRule::Dot(*self)
    }

    fn parse<'a>(&self, parser: &mut GreenParser<'a>, left: Expr, token: Lexeme<'a>) -> (r: Result<
        Expr,
        ParserError,
    >) {
        DotParser::parse(self, parser, left, token)
    }

    fn get_precedence(&self) -> (p: Precedence) {
        Precedence::Call
    }
}

} // verus!
