use green::scanner::lexer::Lexer;
use green::scanner::morpher::morph as clean;
use green::scanner::token::{Keyword, TokenType};

#[test]
fn morph_comments() {
    let input = r#"
        # This is a test!
        print(10)

        "#;
    let tokens = Lexer::parse(input);
    for token in tokens {
        println!("{:?}", token);
    }
}

#[test]
fn morph() {
    let input = r#"

        print(10)

        "#;
    let tokens = Lexer::parse(input);
    for token in tokens {
        println!("{:?}", token);
    }
}

#[test]
fn morph_drops_comments_and_idle_lines() {
    let input = "\n\n# note\nprint(10) # more\n\n\nprint(2)\n";
    let tokens = clean(Lexer::parse(input).unwrap());
    let types: Vec<TokenType> = tokens.iter().map(|t| t.token_type).collect();
    assert_eq!(
        types,
        vec![
            TokenType::Keyword(Keyword::Print),
            TokenType::LeftParen,
            TokenType::Number,
            TokenType::RightParen,
            TokenType::Line,
            TokenType::Keyword(Keyword::Print),
            TokenType::LeftParen,
            TokenType::Number,
            TokenType::RightParen,
            TokenType::Line,
            TokenType::EOF,
        ]
    );
}

#[test]
fn morph_keeps_the_order() {
    let tokens = clean(Lexer::parse("a b c").unwrap());
    let texts: Vec<&str> = tokens.iter().map(|t| t.source).collect();
    assert_eq!(texts, vec!["a", "b", "c", ""]);
}
