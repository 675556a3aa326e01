use green::scanner::lexer::Lexer;
use green::scanner::token::{Position, Token, TokenType};

#[test]
fn lexer_it_works() {
    let input = r#"
        do
            print(10)
        end
"#;

    let tokens = Lexer::parse(input);
    for token in tokens {
        println!("{:?}", token);
    }
}

#[test]
fn parse_var2() {
    let input = r#"
        var x = 10
"#;

    let tokens = Lexer::parse(input);
    for token in tokens {
        println!("{:?}", token);
    }
}

#[test]
fn lexer_parse_var() {
    let input = "var x = if y == 10 then true else false";

    let tokens = Lexer::parse(input);
    for token in tokens {
        println!("{:?}", token);
    }
}

#[test]
fn test_string() {
    let expect = vec![
        Token::new(
            TokenType::String,
            "\"Hello, World\"",
            Position::new(0, 0, 1),
        ),
        Token::new(TokenType::EOF, "", Position::new(0, 0, 0)),
    ];
    let input = "\"Hello, World\"";

    let tokens = Lexer::parse(input).unwrap();

    assert_eq!(expect, tokens);
}

#[test]
fn lexer_parse_if_else() {
    let input = r#"
        if 10 > 5 then
            print(5)
        else
            print(10)
"#;

    let tokens = Lexer::parse(input);
    for token in tokens {
        println!("{:?}", token);
    }
}

#[test]
fn parse_comments() {
    let input = r#"
        # Comment
        print(10)
"#;

    let tokens = Lexer::parse(input);
    for token in tokens {
        println!("{:?}", token);
    }
}

#[test]
fn scanner_tokens_end_with_the_end_token() {
    for input in ["", "x", "x ", "print(10)\n", "a = 1;\n\t"] {
        let tokens = Lexer::parse(input).unwrap();
        assert_eq!(tokens.last().unwrap().token_type, TokenType::EOF);
        let ends = tokens
            .iter()
            .filter(|t| t.token_type == TokenType::EOF)
            .count();
        assert_eq!(ends, 1);
    }
}

#[test]
fn scanner_line_breaks_are_tokens() {
    let tokens = Lexer::parse("a\nb;c\r").unwrap();
    let types: Vec<TokenType> = tokens.iter().map(|t| t.token_type).collect();
    assert_eq!(
        types,
        vec![
            TokenType::Identifier,
            TokenType::Line,
            TokenType::Identifier,
            TokenType::Line,
            TokenType::Identifier,
            TokenType::Line,
            TokenType::EOF,
        ]
    );
}

#[test]
fn scanner_positions_count_characters_and_lines() {
    let tokens = Lexer::parse("ab = 12\ncd").unwrap();
    assert_eq!(tokens[0].position, Position::new(0, 2, 1));
    assert_eq!(tokens[1].position, Position::new(3, 4, 1));
    assert_eq!(tokens[2].position, Position::new(5, 7, 1));
    // the line break itself ends on the second line
    assert_eq!(tokens[3].position, Position::new(7, 7, 2));
    assert_eq!(tokens[4].position, Position::new(8, 10, 2));
}
