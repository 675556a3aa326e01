use crate::text::str_eq;
use std::str::FromStr;
use vstd::prelude::*;
use vstd::std_specs::cmp::PartialEqSpecImpl;

verus! {

/// A lexical unit: its type, its text, and where it stands in the source.
#[derive(Debug, Copy, Clone)]
pub struct Token<'a> {
    pub token_type: TokenType,
    pub source: &'a str,
    pub position: Position,
}

/// The mathematical value of a `Token`.
pub ghost struct TokenView {
    pub token_type: TokenType,
    pub source: Seq<char>,
    pub position: Position,
}

impl<'a> View for Token<'a> {
    type V = TokenView;

    open spec fn view(&self) -> TokenView {
        TokenView { token_type: self.token_type, source: self.source@, position: self.position }
    }
}

impl<'a> Token<'a> {
    /// The token of type `token_type` with text `source` at `position`.
    pub fn new(token_type: TokenType, source: &'a str, position: Position) -> (t: Token<'a>)
        ensures
            t@ == (TokenView { token_type, source: source@, position }),
    {
        Token { token_type, source, position }
    }
}

impl PartialEq for Token<'_> {
    /// Two tokens are equal when type and text are: where they stand does
    /// not count.
    fn eq(&self, other: &Self) -> (r: bool) {
        self.token_type == other.token_type && str_eq(self.source, other.source)
    }
}

impl PartialEqSpecImpl for Token<'_> {
    open spec fn obeys_eq_spec() -> bool {
        true
    }

    open spec fn eq_spec(&self, other: &Self) -> bool {
        self.token_type == other.token_type && self.source@ == other.source@
    }
}

/// Where a token stands: the byte offsets of its first byte and of the byte
/// after its last, and the line that the lexer had reached.
#[derive(Debug, PartialEq, Eq, Structural, Copy, Clone)]
pub struct Position {
    pub start: usize,
    pub end: usize,
    pub line: usize,
}

impl Position {
    pub fn new(start: usize, end: usize, line: usize) -> (p: Position)
        ensures
            p == (Position { start, end, line }),
    {
        Position { start, end, line }
    }
}

#[derive(Debug, PartialEq, Eq, Structural, Hash, Copy, Clone)]
pub enum TokenType {
    // Single-character tokens
    LeftParen,
    RightParen,
    LeftBrace,
    RightBrace,
    LeftBracket,
    RightBracket,
    Comma,
    Dot,
    Minus,
    Plus,
    Percent,
    Star,
    Line,
    // One or two character tokens
    Bang,
    BangEqual,
    Equal,
    EqualEqual,
    LessThan,
    LessThanEqual,
    GreaterThan,
    GreaterThanEqual,
    Arrow,
    Slash,
    Semicolon,
    Colon,
    // Literals
    String,
    Number,
    // Keywords
    Keyword(Keyword),
    Identifier,
    Comment,
    LineComment,
    EOF,
}

#[derive(Debug, PartialEq, Eq, Structural, Hash, Copy, Clone)]
pub enum Keyword {
    Import,
    While,
    For,
    In,
    To,
    DownTo,
    Step,
    Print,
    Do,
    End,
    Def,
    Var,
    If,
    Else,
    Then,
    True,
    False,
    Return,
    Struct,
}

impl Keyword {
    /// The keyword that a word spells, if it spells one.
    pub open spec fn of_word(word: Seq<char>) -> Option<Keyword> {
        if word == "import"@ {
            Some(Keyword::Import)
        } else if word == "while"@ {
            Some(Keyword::While)
        } else if word == "for"@ {
            Some(Keyword::For)
        } else if word == "in"@ {
            Some(Keyword::In)
        } else if word == "to"@ {
            Some(Keyword::To)
        } else if word == "downTo"@ {
            Some(Keyword::DownTo)
        } else if word == "step"@ {
            Some(Keyword::Step)
        } else if word == "print"@ {
            Some(Keyword::Print)
        } else if word == "do"@ {
            Some(Keyword::Do)
        } else if word == "end"@ {
            Some(Keyword::End)
        } else if word == "def"@ {
            Some(Keyword::Def)
        } else if word == "var"@ {
            Some(Keyword::Var)
        } else if word == "if"@ {
            Some(Keyword::If)
        } else if word == "else"@ {
            Some(Keyword::Else)
        } else if word == "then"@ {
            Some(Keyword::Then)
        } else if word == "true"@ {
            Some(Keyword::True)
        } else if word == "false"@ {
            Some(Keyword::False)
        } else if word == "return"@ {
            Some(Keyword::Return)
        } else if word == "struct"@ {
            Some(Keyword::Struct)
        } else {
            None
        }
    }

    /// The keyword that `word` spells; `None` for any other word.
    pub fn lookup(word: &str) -> (k: Option<Keyword>)
        ensures
            k == Keyword::of_word(word@),
    {
        if str_eq(word, "import") {
            Some(Keyword::Import)
        } else if str_eq(word, "while") {
            Some(Keyword::While)
        } else if str_eq(word, "for") {
            Some(Keyword::For)
        } else if str_eq(word, "in") {
            Some(Keyword::In)
        } else if str_eq(word, "to") {
            Some(Keyword::To)
        } else if str_eq(word, "downTo") {
            Some(Keyword::DownTo)
        } else if str_eq(word, "step") {
            Some(Keyword::Step)
        } else if str_eq(word, "print") {
            Some(Keyword::Print)
        } else if str_eq(word, "do") {
            Some(Keyword::Do)
        } else if str_eq(word, "end") {
            Some(Keyword::End)
        } else if str_eq(word, "def") {
            Some(Keyword::Def)
        } else if str_eq(word, "var") {
            Some(Keyword::Var)
        } else if str_eq(word, "if") {
            Some(Keyword::If)
        } else if str_eq(word, "else") {
            Some(Keyword::Else)
        } else if str_eq(word, "then") {
            Some(Keyword::Then)
        } else if str_eq(word, "true") {
            Some(Keyword::True)
        } else if str_eq(word, "false") {
            Some(Keyword::False)
        } else if str_eq(word, "return") {
            Some(Keyword::Return)
        } else if str_eq(word, "struct") {
            Some(Keyword::Struct)
        } else {
            None
        }
    }
}

impl FromStr for Keyword {
    type Err = ();

    fn from_str(word: &str) -> (r: Result<Self, Self::Err>)
        ensures
            r == match Keyword::of_word(word@) {
                Some(k) => Ok::<Keyword, ()>(k),
                None => Err::<Keyword, ()>(()),
            },
    {
        match Keyword::lookup(word) {
            Some(k) => Ok(k),
            None => Err(()),
        }
    }
}

} // verus!
