use green::error::ParserError;
use green::parser::parser::EvalParser;
use green::syntax::expr::{
    ArrayExpr, BinaryExpr, BinaryOperator, BlockExpr, CallExpr, Expr, ExprKind,
    FunctionDeclaration, FunctionExpr, GetExpr, GroupingExpr, IfElseExpr, IfExpr, ImportExpr,
    LiteralExpr, PrintExpr, ReturnExpr, SequenceExpr, SetExpr, SubscriptExpr, UnaryExpr,
    UnaryOperator, VarAssignExpr, VarGetExpr, VarSetExpr, Variable, WhileExpr,
};
use green::syntax::parser::{GreenParser, ModuleAst};
use green::syntax::token::{Keyword, TokenType};

fn bits(text: &str) -> u64 {
    text.parse::<f64>().unwrap().to_bits()
}

fn number(x: f64) -> LiteralExpr {
    LiteralExpr::Number(x.to_bits())
}

fn parse(source: &str) -> Result<ModuleAst, ParserError> {
    GreenParser::parse(source, &bits)
}

#[test]
fn parse_block() {
    let expected_exprs = Expr::block(BlockExpr::new(vec![
        Expr::print(PrintExpr::new(Expr::grouping(GroupingExpr::new(
            Expr::literal(number(1.0)),
        )))),
        Expr::print(PrintExpr::new(Expr::grouping(GroupingExpr::new(
            Expr::literal(number(5.0)),
        )))),
    ]));
    let expect = ModuleAst::new(vec![expected_exprs]);

    let input = r#"
        do
            print(1)
            print(5)
        end
        "#;
    let actual = parse(input).unwrap();

    assert_eq!(expect, actual);
}

#[test]
fn parse_declare_var() {
    let expected_exprs = vec![Expr::var_assign(VarAssignExpr::new(
        Variable::new("x".to_string()),
        Expr::literal(number(5.0)),
    ))];
    let expect = ModuleAst::new(expected_exprs);

    let input = r#"
        var x = 5
        "#;
    let actual = parse(input).unwrap();

    assert_eq!(expect, actual)
}

#[test]
fn parse_set_var() {
    let expected_exprs = vec![Expr::var_set(VarSetExpr::new(
        Variable::new("x".to_string()),
        Expr::literal(number(5.0)),
    ))];
    let expect = ModuleAst::new(expected_exprs);

    let input = r#"
        x = 5
        "#;
    let actual = parse(input).unwrap();

    assert_eq!(expect, actual)
}

#[test]
fn parse_get_var() {
    let expected_exprs = vec![
        Expr::var_assign(VarAssignExpr::new(
            Variable::new("x".to_string()),
            Expr::literal(number(5.0)),
        )),
        Expr::var_assign(VarAssignExpr::new(
            Variable::new("y".to_string()),
            Expr::var_get(VarGetExpr::new(Variable::new("x".to_string()))),
        )),
    ];
    let expect = ModuleAst::new(expected_exprs);

    let input = r#"
        var x = 5
        var y = x
        "#;
    let actual = parse(input).unwrap();

    assert_eq!(expect, actual)
}

#[test]
fn parser_parse_if_else() {
    let empty_vec: Vec<Expr> = vec![];
    let empty_vec2: Vec<Expr> = vec![];
    let expected_exprs = vec![Expr::if_else(IfElseExpr::new(
        Expr::binary(BinaryExpr::new(
            Expr::literal(number(10.0)),
            Expr::literal(number(5.0)),
            BinaryOperator::GreaterThan,
        )),
        BlockExpr::new(empty_vec),
        BlockExpr::new(empty_vec2),
    ))];
    let expect = ModuleAst::new(expected_exprs);

    let input = r#"
        if 10 > 5 do
        else
        end
        "#;
    let actual = parse(input).unwrap();

    assert_eq!(expect, actual);

    // the same statement in the first grammar
    let input = r#"
        if 10 > 5 then
            print(5)
        else
            print(10)
        end
        "#;

    let exprs = EvalParser::parse(input, &bits);
    println!("{:?}", exprs);
    assert_eq!(exprs.unwrap().len(), 1);
}

#[test]
fn parser_parse_import() {
    let expected_exprs = vec![
        Expr::import(ImportExpr::new("foo.bar".to_string())),
        Expr::import(ImportExpr::new("util".to_string())),
        Expr::import(ImportExpr::new("..bar.foo".to_string())),
    ];
    let expect = ModuleAst::new(expected_exprs);

    let input = r#"
        import foo.bar
        import util
        import ..bar.foo
        "#;
    let actual = parse(input).unwrap();

    assert_eq!(expect, actual);
}

#[test]
fn parse_def() {
    let expected_exprs = vec![Expr::new(ExprKind::Function(FunctionExpr::new(
        Variable::new("double".to_string()),
        FunctionDeclaration::new(
            vec![Variable::new("x".to_string())],
            BlockExpr::new(vec![Expr::return_(ReturnExpr::new(Some(Expr::binary(
                BinaryExpr::new(
                    Expr::var_get(VarGetExpr::new(Variable::new("x".to_string()))),
                    Expr::literal(number(2.0)),
                    BinaryOperator::Multiply,
                ),
            ))))]),
        ),
    )))];
    let expect = ModuleAst::new(expected_exprs);

    let input = r#"
        def double(x)
            return x * 2
        end
        "#;
    let actual = parse(input).unwrap();

    assert_eq!(expect, actual);
}

#[test]
fn parse_while() {
    let expected_exprs = vec![
        Expr::var_assign(VarAssignExpr::new(
            Variable::new("x".to_string()),
            Expr::literal(number(0.0)),
        )),
        Expr::while_(WhileExpr::new(
            Expr::binary(BinaryExpr::new(
                Expr::var_get(VarGetExpr::new(Variable::new("x".to_string()))),
                Expr::literal(number(10.0)),
                BinaryOperator::LessThan,
            )),
            Expr::block(BlockExpr::new(vec![Expr::var_set(VarSetExpr::new(
                Variable::new("x".to_string()),
                Expr::binary(BinaryExpr::new(
                    Expr::var_get(VarGetExpr::new(Variable::new("x".to_string()))),
                    Expr::literal(number(1.0)),
                    BinaryOperator::Add,
                )),
            ))])),
        )),
    ];
    let expect = ModuleAst::new(expected_exprs);

    let input = r#"
        var x = 0;
        while x < 10 do
            x = x + 1
        end
        "#;
    let actual = parse(input).unwrap();

    assert_eq!(expect, actual);
}

#[test]
fn parse_for_is_a_counting_loop() {
    let x = || Variable::new("x".to_string());
    let get_x = || Expr::var_get(VarGetExpr::new(x()));
    let expect = ModuleAst::new(vec![Expr::sequence(SequenceExpr::new(vec![
        Expr::var_assign(VarAssignExpr::new(x(), Expr::literal(number(1.0)))),
        Expr::while_(WhileExpr::new(
            Expr::binary(BinaryExpr::new(
                get_x(),
                Expr::literal(number(5.0)),
                BinaryOperator::LessThan,
            )),
            Expr::sequence(SequenceExpr::new(vec![
                Expr::block(BlockExpr::new(vec![])),
                Expr::var_set(VarSetExpr::new(
                    x(),
                    Expr::binary(BinaryExpr::new(
                        get_x(),
                        Expr::literal(number(1.0)),
                        BinaryOperator::Add,
                    )),
                )),
            ])),
        )),
    ]))]);
    let actual = parse("for x in 1 to 5 do\nend\n").unwrap();
    assert_eq!(expect, actual);
}

#[test]
fn parse_for_down_with_step() {
    let module = parse("for x in 9 downTo 1 step 2 do\nend\n").unwrap();
    let ExprKind::Sequence(outer) = &*module.exprs[0].node else {
        panic!("a for loop is a sequence");
    };
    let ExprKind::While(w) = &*outer.exprs[1].node else {
        panic!("whose second statement is a loop");
    };
    let ExprKind::Binary(condition) = &*w.condition.node else {
        panic!("with a comparison for its condition");
    };
    assert_eq!(condition.operator, BinaryOperator::GreaterThan);
    let ExprKind::Sequence(body) = &*w.body.node else {
        panic!("and a sequence for its body");
    };
    let expected_step = Expr::var_set(VarSetExpr::new(
        Variable::new("x".to_string()),
        Expr::binary(BinaryExpr::new(
            Expr::var_get(VarGetExpr::new(Variable::new("x".to_string()))),
            Expr::literal(number(2.0)),
            BinaryOperator::Subtract,
        )),
    ));
    assert_eq!(body.exprs[1], expected_step);
}

#[test]
fn parse_precedence_of_operators() {
    // 1 + 2 * 3 == 7
    let module = parse("1 + 2 * 3 == 7\n").unwrap();
    let expect = Expr::binary(BinaryExpr::new(
        Expr::binary(BinaryExpr::new(
            Expr::literal(number(1.0)),
            Expr::binary(BinaryExpr::new(
                Expr::literal(number(2.0)),
                Expr::literal(number(3.0)),
                BinaryOperator::Multiply,
            )),
            BinaryOperator::Add,
        )),
        Expr::literal(number(7.0)),
        BinaryOperator::Equal,
    ));
    assert_eq!(module.exprs, vec![expect]);
}

#[test]
fn parse_operators_associate_to_the_left() {
    let module = parse("8 - 4 - 2\n").unwrap();
    let expect = Expr::binary(BinaryExpr::new(
        Expr::binary(BinaryExpr::new(
            Expr::literal(number(8.0)),
            Expr::literal(number(4.0)),
            BinaryOperator::Subtract,
        )),
        Expr::literal(number(2.0)),
        BinaryOperator::Subtract,
    ));
    assert_eq!(module.exprs, vec![expect]);
}

#[test]
fn parse_call_with_arguments() {
    let module = parse("f(2, 3)\ng()\n").unwrap();
    let f = Expr::new(ExprKind::Call(CallExpr::new(
        Expr::var_get(VarGetExpr::new(Variable::new("f".to_string()))),
        vec![Expr::literal(number(2.0)), Expr::literal(number(3.0))],
    )));
    let g = Expr::new(ExprKind::Call(CallExpr::new(
        Expr::var_get(VarGetExpr::new(Variable::new("g".to_string()))),
        vec![],
    )));
    assert_eq!(module.exprs, vec![f, g]);
}

#[test]
fn parse_arrays_and_subscripts() {
    let module = parse("[1, 2,]\n[]\na[0]\na[1] = 5\n").unwrap();
    let a = || Expr::var_get(VarGetExpr::new(Variable::new("a".to_string())));
    let expect = vec![
        Expr::new(ExprKind::Array(ArrayExpr::new(Some(vec![
            Expr::literal(number(1.0)),
            Expr::literal(number(2.0)),
        ])))),
        Expr::new(ExprKind::Array(ArrayExpr::new(Some(vec![])))),
        Expr::new(ExprKind::Subscript(SubscriptExpr::new(
            a(),
            Expr::literal(number(0.0)),
            None,
        ))),
        Expr::new(ExprKind::Subscript(SubscriptExpr::new(
            a(),
            Expr::literal(number(1.0)),
            Some(Expr::literal(number(5.0))),
        ))),
    ];
    assert_eq!(module.exprs, expect);
}

#[test]
fn parse_properties() {
    let module = parse("p.x\np.x = 1\n").unwrap();
    let p = || Expr::var_get(VarGetExpr::new(Variable::new("p".to_string())));
    let expect = vec![
        Expr::get_property(GetExpr::new(p(), "x".to_string())),
        Expr::set_property(SetExpr::new(
            p(),
            Expr::literal(number(1.0)),
            "x".to_string(),
        )),
    ];
    assert_eq!(module.exprs, expect);
}

#[test]
fn parse_unary_and_literals() {
    let module = parse("!true\n-x\n\"hi\"\nfalse\n").unwrap();
    let expect = vec![
        Expr::new(ExprKind::Unary(UnaryExpr::new(
            Expr::literal(LiteralExpr::True),
            UnaryOperator::Not,
        ))),
        Expr::new(ExprKind::Unary(UnaryExpr::new(
            Expr::var_get(VarGetExpr::new(Variable::new("x".to_string()))),
            UnaryOperator::Negate,
        ))),
        Expr::literal(LiteralExpr::String("hi".to_string())),
        Expr::literal(LiteralExpr::False),
    ];
    assert_eq!(module.exprs, expect);
}

#[test]
fn parse_if_without_else_is_a_sequence() {
    let module = parse("if x do\n print(1)\nend\n").unwrap();
    let expect = Expr::new(ExprKind::If(IfExpr::new(
        Expr::var_get(VarGetExpr::new(Variable::new("x".to_string()))),
        Expr::sequence(SequenceExpr::new(vec![Expr::print(PrintExpr::new(
            Expr::grouping(GroupingExpr::new(Expr::literal(number(1.0)))),
        ))])),
    )));
    assert_eq!(module.exprs, vec![expect]);
}

#[test]
fn parse_var_without_initializer_is_nil() {
    let module = parse("var x\n").unwrap();
    let expect = Expr::var_assign(VarAssignExpr::new(
        Variable::new("x".to_string()),
        Expr::nil(),
    ));
    assert_eq!(module.exprs, vec![expect]);
}

#[test]
fn parse_return_with_and_without_value() {
    let module = parse("def f()\n return\nend\ndef g()\n return 1\nend\n").unwrap();
    let body = |e: &Expr| match &*e.node {
        ExprKind::Function(f) => f.declaration.body.exprs.len(),
        _ => panic!("a declaration"),
    };
    assert_eq!(body(&module.exprs[0]), 1);
    let ExprKind::Function(f) = &*module.exprs[0].node else {
        panic!("a declaration");
    };
    assert_eq!(
        f.declaration.body.exprs[0],
        Expr::return_(ReturnExpr::new(None))
    );
    let ExprKind::Function(g) = &*module.exprs[1].node else {
        panic!("a declaration");
    };
    assert_eq!(
        g.declaration.body.exprs[0],
        Expr::return_(ReturnExpr::new(Some(Expr::literal(number(1.0)))))
    );
}

#[test]
fn parse_errors() {
    // an expression must end with the line
    assert_eq!(
        parse("x = 5").unwrap_err(),
        ParserError::Expect(TokenType::Line, TokenType::EOF)
    );
    // no expression starts with `)`
    assert_eq!(
        parse(")\n").unwrap_err(),
        ParserError::UnexpectedToken(TokenType::RightParen)
    );
    // a block must be closed
    assert_eq!(
        parse("do\n print(1)\n ").unwrap_err(),
        ParserError::Expect(TokenType::Keyword(Keyword::End), TokenType::EOF)
    );
    // nothing to read at all
    assert_eq!(parse("").unwrap_err(), ParserError::UnexpectedEOF);
    // what the lexer rejects
    assert_eq!(parse("x ? y\n").unwrap_err(), ParserError::UnexpectedChar('?'));
    assert_eq!(
        parse("\"open\n").unwrap_err(),
        ParserError::UnterminatedString
    );
    // a for loop counts up or down
    assert_eq!(
        parse("for x in 1 in 5 do\nend\n").unwrap_err(),
        ParserError::Expect(
            TokenType::Keyword(Keyword::To),
            TokenType::Keyword(Keyword::In)
        )
    );
}

#[test]
fn parse_numbers_are_decoded_by_the_caller() {
    // the parser hands each number's text to the decoder and keeps what
    // comes back
    let module = GreenParser::parse("12 + 3.5\n", &|text: &str| text.len() as u64).unwrap();
    let expect = Expr::binary(BinaryExpr::new(
        Expr::literal(LiteralExpr::Number(2)),
        Expr::literal(LiteralExpr::Number(3)),
        BinaryOperator::Add,
    ));
    assert_eq!(module.exprs, vec![expect]);
}
