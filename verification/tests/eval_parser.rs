use green::parser::ast::expr::{
    BinaryExpr, BinaryOperator, BlockExpr, CallExpr, Expr, ExprKind, FunctionDeclaration,
    FunctionExpr, GroupingExpr, IfElseExpr, IfExpr, LiteralExpr, ReturnExpr, UnaryExpr,
    UnaryOperator, VarAssignExpr, VarGetExpr, VarSetExpr, Variable,
};
use green::parser::grammar::Failure;
use green::parser::parser::EvalParser;
use green::parser::rule::{get_precedence, Precedence};
use green::scanner::token::{Keyword, Position, Token, TokenType};

fn bits(text: &str) -> u64 {
    text.parse::<f64>().unwrap().to_bits()
}

fn number(x: f64) -> Expr {
    Expr::new(ExprKind::Literal(LiteralExpr::Number(x.to_bits())))
}

fn print(e: Expr) -> Expr {
    Expr::new(ExprKind::Print(e))
}

fn group(e: Expr) -> Expr {
    Expr::new(ExprKind::Grouping(GroupingExpr::new(e)))
}

fn get(name: &str) -> Expr {
    Expr::new(ExprKind::VarGet(VarGetExpr::new(Variable::new(
        name.to_string(),
    ))))
}

#[test]
fn parser_it_works() {
    let input = r#"
        do
            print(10)
            print(10)
        end
"#;

    let exprs = EvalParser::parse(input, &bits);
    println!("{:?}", exprs);

    let expect = vec![Expr::new(ExprKind::Block(BlockExpr::new(vec![
        print(group(number(10.0))),
        print(group(number(10.0))),
    ])))];
    assert_eq!(exprs.unwrap(), expect);
}

#[test]
fn parser_parse_var() {
    let input = r#"
        var x = 10
        x = 10
        print(x)
        "#;

    let exprs = EvalParser::parse(input, &bits);
    println!("{:?}", exprs);

    let expect = vec![
        Expr::new(ExprKind::VarAssign(VarAssignExpr::new(
            Variable::new("x".to_string()),
            number(10.0),
        ))),
        Expr::new(ExprKind::VarSet(VarSetExpr::new(
            Variable::new("x".to_string()),
            number(10.0),
        ))),
        print(group(get("x"))),
    ];
    assert_eq!(exprs.unwrap(), expect);
}

#[test]
fn eval_parse_if_with_and_without_else() {
    let input = "if 10 > 5 then\n print(5)\nelse\n print(10)\nend\nif x then\n print(1)\nend\n";
    let exprs = EvalParser::parse(input, &bits).unwrap();
    let condition = Expr::new(ExprKind::Binary(BinaryExpr::new(
        number(10.0),
        number(5.0),
        BinaryOperator::GreaterThan,
    )));
    let expect = vec![
        Expr::new(ExprKind::IfElse(IfElseExpr::new(
            condition,
            BlockExpr::new(vec![print(group(number(5.0)))]),
            BlockExpr::new(vec![print(group(number(10.0)))]),
        ))),
        Expr::new(ExprKind::If(IfExpr::new(
            get("x"),
            vec![print(group(number(1.0)))],
        ))),
    ];
    assert_eq!(exprs, expect);
}

#[test]
fn eval_parse_def_call_and_return() {
    let input = "def add(a, b)\n return a + b\nend\nadd(1, -2)\ndef none()\n return\nend\n";
    let exprs = EvalParser::parse(input, &bits).unwrap();
    let expect = vec![
        Expr::new(ExprKind::Function(FunctionExpr::new(
            Variable::new("add".to_string()),
            FunctionDeclaration::new(
                vec![
                    Variable::new("a".to_string()),
                    Variable::new("b".to_string()),
                ],
                BlockExpr::new(vec![Expr::new(ExprKind::Return(ReturnExpr::new(Some(
                    Expr::new(ExprKind::Binary(BinaryExpr::new(
                        get("a"),
                        get("b"),
                        BinaryOperator::Add,
                    ))),
                ))))]),
            ),
        ))),
        Expr::new(ExprKind::Call(CallExpr::new(
            get("add"),
            vec![
                number(1.0),
                Expr::new(ExprKind::Unary(UnaryExpr::new(
                    number(2.0),
                    UnaryOperator::Negate,
                ))),
            ],
        ))),
        Expr::new(ExprKind::Function(FunctionExpr::new(
            Variable::new("none".to_string()),
            FunctionDeclaration::new(
                vec![],
                BlockExpr::new(vec![Expr::new(ExprKind::Return(ReturnExpr::new(None)))]),
            ),
        ))),
    ];
    assert_eq!(exprs, expect);
}

#[test]
fn eval_parse_comments_and_blank_lines_mean_nothing() {
    let with = EvalParser::parse("\n# a note\n\nprint(1) # more\n\n\n", &bits).unwrap();
    let without = EvalParser::parse("print(1)\n", &bits).unwrap();
    assert_eq!(with, without);
    assert_eq!(EvalParser::parse("", &bits).unwrap(), vec![]);
    assert_eq!(EvalParser::parse("# only this\n", &bits).unwrap(), vec![]);
}

#[test]
fn eval_parse_errors() {
    assert_eq!(
        EvalParser::parse("print(1", &bits).unwrap_err(),
        Failure::Expect(TokenType::RightParen, TokenType::EOF)
    );
    assert_eq!(
        EvalParser::parse("print(1) print(2)\n", &bits).unwrap_err(),
        Failure::Expect(TokenType::Line, TokenType::Keyword(Keyword::Print))
    );
    assert_eq!(
        EvalParser::parse("1 + )\n", &bits).unwrap_err(),
        Failure::UnexpectedToken(TokenType::RightParen)
    );
    assert_eq!(
        EvalParser::parse("a ~ b\n", &bits).unwrap_err(),
        Failure::UnexpectedChar('~')
    );
    assert_eq!(
        EvalParser::parse("\"open", &bits).unwrap_err(),
        Failure::UnterminatedString
    );
}

#[test]
fn eval_precedence_table() {
    let token = |ty| Token::new(ty, "", Position::new(0, 0, 0));
    let rank = |ty| get_precedence(&token(ty)).level();
    assert_eq!(rank(TokenType::Plus), 6);
    assert_eq!(rank(TokenType::Minus), 6);
    assert_eq!(rank(TokenType::Star), 7);
    assert_eq!(rank(TokenType::Slash), 7);
    assert_eq!(rank(TokenType::EqualEqual), 4);
    assert_eq!(rank(TokenType::BangEqual), 4);
    assert_eq!(rank(TokenType::LessThan), 5);
    assert_eq!(rank(TokenType::GreaterThanEqual), 5);
    assert_eq!(rank(TokenType::LeftParen), 9);
    assert_eq!(rank(TokenType::Identifier), 0);
    assert_eq!(Precedence::Assignment.level(), 1);
    assert_eq!(Precedence::Unary.level(), 8);
}
