use green::syntax::lexer::Lexer;
use green::syntax::token::{Keyword, Position, Token, TokenType};

// Positions do not count when tokens are compared.
fn empty_pos() -> Position {
    Position::new(0, 0, 0)
}

#[test]
fn parse_number() {
    let expect = vec![
        Token::new(TokenType::Number, "2", empty_pos()),
        Token::new(TokenType::Number, "10", empty_pos()),
        Token::new(TokenType::Number, "3.33", empty_pos()),
    ];

    let input = "2 10 3.33";

    let actual = Lexer::parse(input).unwrap();
    assert_eq!(expect, actual);
}

#[test]
fn parse_string() {
    let expect = vec![
        Token::new(TokenType::String, "foo", empty_pos()),
        Token::new(TokenType::String, "bar", Position::new(2, 3, 1)),
    ];

    let input = r#""foo" "bar""#;
    let actual = Lexer::parse(input).unwrap();

    assert_eq!(expect, actual);
}

#[test]
fn parse_fn() {
    let expect = vec![
        Token::new(TokenType::Identifier, "fn", empty_pos()),
        Token::new(TokenType::Identifier, "double", empty_pos()),
        Token::new(TokenType::LeftParen, "(", empty_pos()),
        Token::new(TokenType::Identifier, "x", empty_pos()),
        Token::new(TokenType::Colon, ":", empty_pos()),
        Token::new(TokenType::Identifier, "Int", empty_pos()),
        Token::new(TokenType::RightParen, ")", empty_pos()),
        Token::new(TokenType::Arrow, "->", empty_pos()),
        Token::new(TokenType::Identifier, "Int", empty_pos()),
        Token::new(TokenType::LeftBrace, "{", empty_pos()),
        Token::new(TokenType::RightBrace, "}", empty_pos()),
        Token::new(TokenType::EOF, "", empty_pos()),
    ];

    let input = r#"
        fn double(x: Int) -> Int {
        }
        "#;
    let actual = Lexer::parse(input).unwrap();

    assert_eq!(expect, actual);
}

#[test]
fn lexer_parse_import() {
    let expect = vec![
        Token::new(TokenType::Keyword(Keyword::Import), "import", empty_pos()),
        Token::new(TokenType::Identifier, "foo", empty_pos()),
        Token::new(TokenType::Dot, ".", empty_pos()),
        Token::new(TokenType::Identifier, "bar", empty_pos()),
        Token::new(TokenType::EOF, "", empty_pos()),
    ];

    let input = r#"
        import foo.bar
        "#;
    let actual = Lexer::parse(input).unwrap();

    assert_eq!(expect, actual);
}

#[test]
fn parse_for() {
    let expect = vec![
        Token::new(TokenType::Keyword(Keyword::For), "for", empty_pos()),
        Token::new(TokenType::Identifier, "x", empty_pos()),
        Token::new(TokenType::Keyword(Keyword::In), "in", empty_pos()),
        Token::new(TokenType::Number, "1", empty_pos()),
        Token::new(TokenType::Keyword(Keyword::To), "to", empty_pos()),
        Token::new(TokenType::Number, "10", empty_pos()),
        Token::new(TokenType::LeftBrace, "{", empty_pos()),
        Token::new(TokenType::RightBrace, "}", empty_pos()),
        Token::new(TokenType::EOF, "", empty_pos()),
    ];

    let input = r#"
        for x in 1 to 10 {
        }
        "#;
    let actual = Lexer::parse(input).unwrap();

    assert_eq!(expect, actual);
}
