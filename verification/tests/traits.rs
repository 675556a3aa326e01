use green::compiler::compiler::Compiler;
use green::compiler::module_resolver::ModuleTable;
use green::error::CompileError;
use green::syntax::expr::{
    BinaryExpr, BinaryOperator, Compile, Expr, ExprKind, LiteralExpr, PrintExpr, ReturnExpr,
    VarGetExpr, Variable,
};
use green::syntax::parser::{GreenParser, Lexeme};
use green::syntax::rule::{
    get_infix_rule, get_precedence, get_prefix_rule, CallParser, DotParser, InfixOperatorParser,
    InfixParser, InfixRule, LiteralParser, Precedence, PrefixParser, PrefixRule, SubscriptParser,
    UnaryParser,
};
use green::syntax::token::{Keyword, Position, Token, TokenType};

fn bits(text: &str) -> u64 {
    text.parse::<f64>().unwrap().to_bits()
}

fn number(x: f64) -> Expr {
    Expr::literal(LiteralExpr::Number(x.to_bits()))
}

#[test]
fn nodes_compile_themselves() {
    let modules = ModuleTable::new();
    // a node compiles to what the compiler makes of it
    let sum = BinaryExpr::new(number(1.0), number(2.0), BinaryOperator::Add);
    let mut by_node = Compiler::new();
    sum.compile(&mut by_node, &modules, 0).unwrap();
    let mut by_compiler = Compiler::new();
    by_compiler.compile_binary(&sum, &modules, 0).unwrap();
    assert_eq!(
        by_node.current.function.chunk.code,
        by_compiler.current.function.chunk.code
    );
    assert_eq!(by_node.current.function.chunk.code, vec![1, 0, 1, 1, 2]);
    // and so does a node of any kind, through the kind
    let print = ExprKind::Print(PrintExpr::new(number(1.0)));
    let mut compiler = Compiler::new();
    print.compile(&mut compiler, &modules, 0).unwrap();
    assert_eq!(compiler.current.function.chunk.code, vec![1, 0, 6]);
    let read = VarGetExpr::new(Variable::new("x".to_string()));
    let mut compiler = Compiler::new();
    read.compile(&mut compiler, &modules, 0).unwrap();
    assert_eq!(compiler.current.function.chunk.code, vec![13, 0]);
    let leave = ReturnExpr::new(None);
    let mut compiler = Compiler::new();
    assert_eq!(
        leave.compile(&mut compiler, &modules, 0),
        Err(CompileError::ReturnOutsideFunction)
    );
}

#[test]
fn rules_of_tokens() {
    assert_eq!(
        get_prefix_rule(&TokenType::Number),
        Some(PrefixRule::Literal(LiteralParser))
    );
    assert_eq!(
        get_prefix_rule(&TokenType::Keyword(Keyword::True)),
        Some(PrefixRule::Literal(LiteralParser))
    );
    assert_eq!(
        get_prefix_rule(&TokenType::Minus),
        Some(PrefixRule::Unary(UnaryParser::new()))
    );
    assert_eq!(get_prefix_rule(&TokenType::Plus), None);
    assert_eq!(get_prefix_rule(&TokenType::Keyword(Keyword::Do)), None);
    assert_eq!(
        get_infix_rule(&TokenType::Star),
        Some(InfixRule::Operator(InfixOperatorParser::new(
            Precedence::Factor
        )))
    );
    assert_eq!(
        get_infix_rule(&TokenType::LeftParen),
        Some(InfixRule::Call(CallParser::new()))
    );
    assert_eq!(
        get_infix_rule(&TokenType::LeftBracket),
        Some(InfixRule::Subscript(SubscriptParser::new()))
    );
    assert_eq!(
        get_infix_rule(&TokenType::Dot),
        Some(InfixRule::Dot(DotParser::new()))
    );
    assert_eq!(get_infix_rule(&TokenType::Number), None);
    let token = |ty| Token::new(ty, "", Position::new(0, 0, 0));
    assert_eq!(get_precedence(&token(TokenType::Plus)), Precedence::Term);
    assert_eq!(
        get_precedence(&token(TokenType::LessThan)),
        Precedence::Comparison
    );
    assert_eq!(
        get_precedence(&token(TokenType::EqualEqual)),
        Precedence::Equality
    );
    assert_eq!(get_precedence(&token(TokenType::Dot)), Precedence::Call);
    assert_eq!(
        get_precedence(&token(TokenType::LeftBracket)),
        Precedence::Subscript
    );
    assert_eq!(get_precedence(&token(TokenType::Line)), Precedence::Lowest);
    let levels: Vec<u8> = [
        Precedence::Lowest,
        Precedence::Assignment,
        Precedence::Or,
        Precedence::And,
        Precedence::Equality,
        Precedence::Comparison,
        Precedence::Term,
        Precedence::Factor,
        Precedence::Unary,
        Precedence::Call,
        Precedence::Subscript,
    ]
    .iter()
    .map(|p| p.level())
    .collect();
    assert_eq!(levels, (0..=10).collect::<Vec<u8>>());
    assert_eq!(
        InfixParser::get_precedence(&InfixOperatorParser::new(Precedence::Term)),
        Precedence::Term
    );
    assert_eq!(
        InfixParser::get_precedence(&SubscriptParser::new()),
        Precedence::Subscript
    );
}

#[test]
fn rules_parse_through_their_traits() {
    // behind the token `7`, of a parser that reads `+ 1`
    let mut parser = GreenParser::new("+ 1\n", &bits).unwrap();
    let seven = Lexeme {
        token: Token::new(TokenType::Number, "7", Position::new(0, 1, 1)),
        number: 7.0f64.to_bits(),
    };
    let left = PrefixParser::parse(&LiteralParser, &mut parser, seven).unwrap();
    assert_eq!(left, number(7.0));
    // a literal takes nothing
    assert!(parser.check(TokenType::Plus).unwrap());
    let plus = Lexeme {
        token: parser.consume().unwrap(),
        number: 0,
    };
    let sum = InfixParser::parse(
        &InfixOperatorParser::new(Precedence::Term),
        &mut parser,
        left,
        plus,
    )
    .unwrap();
    assert_eq!(
        sum,
        Expr::binary(BinaryExpr::new(
            number(7.0),
            number(1.0),
            BinaryOperator::Add
        ))
    );
    assert!(parser.match_(TokenType::Line).unwrap());
    assert!(!parser.match_(TokenType::Line).unwrap());
    assert_eq!(parser.expect(TokenType::EOF).unwrap().token_type, TokenType::EOF);
    assert!(parser.consume().is_err());
}
