// The lexers decide by what they are told of each character.

use green::error::SyntaxError;
use green::syntax::lexer::Lexer;
use green::syntax::token::{Keyword, TokenType};
use green::text::{classify, classify_all, CharClass, CharInfo, Cursor};

const LETTER: CharInfo = CharInfo {
    alphabetic: true,
    alphanumeric: true,
    whitespace: false,
};
const NUMERAL: CharInfo = CharInfo {
    alphabetic: false,
    alphanumeric: true,
    whitespace: false,
};
const SPACE: CharInfo = CharInfo {
    alphabetic: false,
    alphanumeric: false,
    whitespace: true,
};
const OTHER: CharInfo = CharInfo {
    alphabetic: false,
    alphanumeric: false,
    whitespace: false,
};

#[test]
fn the_tables_answer_for_each_character() {
    assert_eq!(classify('a'), LETTER);
    assert_eq!(classify('λ'), LETTER);
    assert_eq!(classify('7'), NUMERAL);
    assert_eq!(classify('٣'), NUMERAL);
    assert_eq!(classify(' '), SPACE);
    assert_eq!(classify('\n'), SPACE);
    assert_eq!(classify('\u{2003}'), SPACE);
    assert_eq!(classify('+'), OTHER);
    assert_eq!(classify('_'), OTHER);
    assert_eq!(
        classify_all("x1 +"),
        vec![LETTER, NUMERAL, SPACE, OTHER]
    );
    assert_eq!(classify_all(""), vec![]);
    // one answer for each character, not for each byte
    assert_eq!(classify_all("λ٣"), vec![LETTER, NUMERAL]);
}

#[test]
fn classes_go_by_the_answers() {
    assert!(CharClass::Whitespace.test('x', SPACE));
    assert!(!CharClass::Whitespace.test(' ', OTHER));
    assert!(CharClass::Alphanumeric.test('+', NUMERAL));
    assert!(!CharClass::Alphanumeric.test('a', OTHER));
    // the other classes go by the character alone
    assert!(CharClass::Blank.test('\t', OTHER));
    assert!(!CharClass::Blank.test('x', SPACE));
    assert!(CharClass::Digit.test('0', OTHER));
    assert!(!CharClass::Digit.test('x', NUMERAL));
    assert!(CharClass::Not('a').test('b', OTHER));
    assert!(!CharClass::Not('a').test('a', LETTER));
}

#[test]
fn tokens_of_a_classified_text() {
    let tokens = Lexer::parse_classified(
        "var x1 = 42",
        vec![
            LETTER, LETTER, LETTER, SPACE, LETTER, NUMERAL, SPACE, OTHER, SPACE, NUMERAL, NUMERAL,
        ],
    )
    .unwrap();
    let seen: Vec<(TokenType, &str, usize, usize, usize)> = tokens
        .iter()
        .map(|t| {
            (
                t.token_type,
                t.source,
                t.position.start,
                t.position.end,
                t.position.line,
            )
        })
        .collect();
    assert_eq!(
        seen,
        vec![
            (TokenType::Keyword(Keyword::Var), "var", 0, 3, 1),
            (TokenType::Identifier, "x1", 4, 6, 1),
            (TokenType::Equal, "=", 7, 8, 1),
            (TokenType::Number, "42", 9, 11, 1),
        ]
    );
}

#[test]
fn with_the_tables_answers_it_is_the_lexer() {
    for source in ["", "var x = 5\nprint(x)\n", "def f(a, b)\n return a + b\nend ", "λx٣ \u{2003}y", "\"s\" # c"] {
        let plain = Lexer::parse(source).unwrap();
        let classified = Lexer::parse_classified(source, classify_all(source)).unwrap();
        assert_eq!(plain, classified);
    }
    assert!(matches!(
        Lexer::parse_classified("a ?", classify_all("a ?")),
        Err(SyntaxError::UnexpectedChar('?'))
    ));
    assert!(matches!(
        Lexer::parse_classified("\"a", classify_all("\"a")),
        Err(SyntaxError::UnterminatedString)
    ));
}

#[test]
fn other_answers_give_other_tokens() {
    // told that `a` is no letter, the lexer has no token for it
    assert!(matches!(
        Lexer::parse_classified("a", vec![OTHER]),
        Err(SyntaxError::UnexpectedChar('a'))
    ));
    // told that `_` is a letter, it reads a word
    let tokens = Lexer::parse_classified("_a", vec![LETTER, LETTER]).unwrap();
    assert_eq!(tokens.len(), 1);
    assert_eq!(tokens[0].token_type, TokenType::Identifier);
    assert_eq!(tokens[0].source, "_a");
    // told that the space is none, it stops there
    assert!(matches!(
        Lexer::parse_classified("a b", vec![LETTER, OTHER, LETTER]),
        Err(SyntaxError::UnexpectedChar(' '))
    ));
    // told that `+` is whitespace, it skips it, and ends with the end token
    let tokens = Lexer::parse_classified("a+", vec![LETTER, SPACE]).unwrap();
    assert_eq!(tokens.len(), 2);
    assert_eq!(tokens[0].source, "a");
    assert_eq!(tokens[1].token_type, TokenType::EOF);
    // a word runs over what is called a letter or a number, and its text
    // ends before what is called whitespace
    let tokens = Lexer::parse_classified(
        "ab-",
        vec![
            LETTER,
            LETTER,
            CharInfo {
                alphabetic: false,
                alphanumeric: true,
                whitespace: true,
            },
        ],
    )
    .unwrap();
    assert_eq!(tokens.len(), 1);
    assert_eq!(tokens[0].source, "ab");
    assert_eq!((tokens[0].position.start, tokens[0].position.end), (0, 2));
}

#[test]
fn the_first_lexer_goes_by_the_answers_too() {
    let source = "var x = 1 # c\nprint x";
    let plain = green::scanner::lexer::Lexer::parse(source).unwrap();
    let classified =
        green::scanner::lexer::Lexer::parse_classified(source, classify_all(source)).unwrap();
    assert_eq!(plain, classified);
    assert_eq!(
        plain.last().unwrap().token_type,
        green::scanner::token::TokenType::EOF
    );
    assert!(matches!(
        green::scanner::lexer::Lexer::parse_classified("a", vec![OTHER]),
        Err(SyntaxError::UnexpectedChar('a'))
    ));
    let tokens = green::scanner::lexer::Lexer::parse_classified("_", vec![LETTER]).unwrap();
    assert_eq!(tokens.len(), 2);
    assert_eq!(
        tokens[0].token_type,
        green::scanner::token::TokenType::Identifier
    );
    assert_eq!(tokens[0].source, "_");
    // spaces are told by the character here, whatever the answers
    let tokens =
        green::scanner::lexer::Lexer::parse_classified("a b", vec![LETTER, OTHER, LETTER]).unwrap();
    assert_eq!(tokens.len(), 3);
}

#[test]
fn a_cursor_takes_the_answers_it_is_given() {
    let mut cursor = Cursor::classified("a-b c", vec![LETTER, LETTER, LETTER, SPACE, LETTER]);
    assert_eq!(cursor.advance_while(CharClass::Alphanumeric), 3);
    assert_eq!(cursor.token_contents(0), "a-b");
    assert_eq!(cursor.advance_while(CharClass::Whitespace), 1);
    assert_eq!(cursor.token_contents(0), "a-b");
    assert_eq!(cursor.trimmed_end(0), 3);
    let cursor = Cursor::new("a b");
    assert_eq!(cursor.kinds, classify_all("a b"));
}

#[test]
fn a_character_without_an_answer_is_in_no_class() {
    // the word ends before `b`, of which nothing is said, and `b` starts
    // no token
    assert!(matches!(
        Lexer::parse_classified("ab", vec![LETTER]),
        Err(SyntaxError::UnexpectedChar('b'))
    ));
    assert!(matches!(
        Lexer::parse_classified("a", vec![]),
        Err(SyntaxError::UnexpectedChar('a'))
    ));
    // punctuation and digits need no answer
    let tokens = Lexer::parse_classified("1+2", vec![]).unwrap();
    assert_eq!(tokens.len(), 3);
    assert_eq!(tokens[2].source, "2");
    // answers beyond the text are left out
    let tokens = Lexer::parse_classified("a", vec![LETTER, SPACE, LETTER]).unwrap();
    assert_eq!(tokens.len(), 1);
    let cursor = Cursor::classified("ab", vec![LETTER, NUMERAL, SPACE]);
    assert_eq!(cursor.kinds, vec![LETTER, NUMERAL]);
    let cursor = Cursor::classified("ab", vec![SPACE]);
    assert_eq!(cursor.kinds, vec![SPACE, OTHER]);
}
