use crate::error::SyntaxError;
use crate::scanner::token::{Keyword, Position, Token, TokenType, TokenView};
use crate::text::{
    classify_all, digit, fitted, infos, is_digit, lemma_scan, line_at, scan, trimmed, CharClass, CharInfo,
    Cursor,
};
use vstd::prelude::*;

verus! {

/// Why a source text has no token sequence.
pub ghost enum LexError {
    UnexpectedChar(char),
    UnterminatedString,
}

/// A token and the offset at which the text behind it starts.
pub ghost struct Lexed {
    pub token: TokenView,
    pub end: int,
}

/// The token of type `ty` whose text lies between `start` and `end`. Its
/// text is what lies there without the whitespace at its end; its line is
/// the line on which the token ends.
///
/// Here and below `k` holds, for each character of the text `s`, what the
/// Unicode tables say of it.
pub open spec fn token(
    s: Seq<char>,
    k: Seq<CharInfo>,
    ty: TokenType,
    start: int,
    end: int,
) -> TokenView {
    let stop = trimmed(k, start, end);
    TokenView {
        token_type: ty,
        source: s.subrange(start, stop),
        position: Position { start: start as usize, end: stop as usize, line: line_at(s, end) },
    }
}

/// Where the number ends whose first digit stands before `from`: behind the
/// digits and, if a point and a digit follow them, behind the digits after
/// the point.
pub open spec fn number_end(s: Seq<char>, k: Seq<CharInfo>, from: int) -> int {
    let whole = scan(s, k, CharClass::Digit, from);
    if whole + 1 < s.len() && s[whole] == '.' && digit(s[whole + 1]) {
        scan(s, k, CharClass::Digit, whole + 1)
    } else {
        whole
    }
}

/// The token type of the punctuation at offset `at`, and how many
/// characters it takes: two where the pair forms one token. A semicolon and
/// the two characters that end a line all separate statements.
pub open spec fn symbol(s: Seq<char>, at: int) -> Option<(TokenType, int)> {
    let c = s[at];
    let followed_by = |x: char| at + 1 < s.len() && s[at + 1] == x;
    if c == '(' {
        Some((TokenType::LeftParen, 1))
    } else if c == ')' {
        Some((TokenType::RightParen, 1))
    } else if c == '{' {
        Some((TokenType::LeftBrace, 1))
    } else if c == '}' {
        Some((TokenType::RightBrace, 1))
    } else if c == ',' {
        Some((TokenType::Comma, 1))
    } else if c == '.' {
        Some((TokenType::Dot, 1))
    } else if c == '-' {
        Some((TokenType::Minus, 1))
    } else if c == '+' {
        Some((TokenType::Plus, 1))
    } else if c == '%' {
        Some((TokenType::Percent, 1))
    } else if c == '/' {
        Some((TokenType::Slash, 1))
    } else if c == '*' {
        Some((TokenType::Star, 1))
    } else if c == ';' || c == '\n' || c == '\r' {
        Some((TokenType::Line, 1))
    } else if c == '!' {
        if followed_by('=') {
            Some((TokenType::BangEqual, 2))
        } else {
            Some((TokenType::Bang, 1))
        }
    } else if c == '=' {
        if followed_by('=') {
            Some((TokenType::EqualEqual, 2))
        } else {
            Some((TokenType::Equal, 1))
        }
    } else if c == '<' {
        if followed_by('=') {
            Some((TokenType::LessThanEqual, 2))
        } else {
            Some((TokenType::LessThan, 1))
        }
    } else if c == '>' {
        if followed_by('=') {
            Some((TokenType::GreaterThanEqual, 2))
        } else {
            Some((TokenType::GreaterThan, 1))
        }
    } else {
        None
    }
}

/// The type of a word: that of the keyword that it spells, or identifier.
pub open spec fn word_type(word: Seq<char>) -> TokenType {
    match Keyword::of_word(word) {
        Some(k) => TokenType::Keyword(k),
        None => TokenType::Identifier,
    }
}

/// The token that starts at or behind offset `pos`, behind any spaces and
/// tabs.
///
/// - Where only spaces and tabs are left: the end token, with no text.
/// - A letter starts a word, which runs over letters and digits.
/// - A digit starts a number.
/// - `"` starts a string, which runs to the next `"`; its text holds both.
/// - `#` starts a comment, which runs to the end of the line.
/// - Else the character is punctuation, or an error.
pub open spec fn read_token(s: Seq<char>, k: Seq<CharInfo>, pos: int) -> Result<Lexed, LexError> {
    let at = scan(s, k, CharClass::Blank, pos);
    if at < 0 || at >= s.len() {
        Ok(Lexed { token: token(s, k, TokenType::EOF, s.len() as int, s.len() as int), end: s.len() as int })
    } else {
        let c = s[at];
        if k[at].alphabetic {
            let end = scan(s, k, CharClass::Alphanumeric, at + 1);
            let word = s.subrange(at, trimmed(k, at, end));
            Ok(Lexed { token: token(s, k, word_type(word), at, end), end })
        } else if digit(c) {
            let end = number_end(s, k, at + 1);
            Ok(Lexed { token: token(s, k, TokenType::Number, at, end), end })
        } else if c == '"' {
            let close = scan(s, k, CharClass::Not('"'), at + 1);
            if close >= s.len() {
                Err(LexError::UnterminatedString)
            } else {
                Ok(Lexed { token: token(s, k, TokenType::String, at, close + 1), end: close + 1 })
            }
        } else if c == '#' {
            let stop = scan(s, k, CharClass::Not('\n'), at + 1);
            let end = if stop < s.len() {
                stop + 1
            } else {
                stop
            };
            Ok(Lexed { token: token(s, k, TokenType::LineComment, at, end), end })
        } else {
            match symbol(s, at) {
                Some((ty, width)) => Ok(Lexed { token: token(s, k, ty, at, at + width), end: at + width }),
                None => Err(LexError::UnexpectedChar(c)),
            }
        }
    }
}

/// The tokens of the text from offset `pos` on: one after the other until
/// the text is consumed.
pub open spec fn tokens_from(s: Seq<char>, k: Seq<CharInfo>, pos: int) -> Result<
    Seq<TokenView>,
    LexError,
>
    decreases s.len() - pos,
{
    if pos < 0 || pos >= s.len() {
        Ok(Seq::empty())
    } else {
        match read_token(s, k, pos) {
            Err(e) => Err(e),
            Ok(lexed) => if lexed.end <= pos || lexed.end > s.len() {
                Ok(seq![lexed.token])
            } else {
                match tokens_from(s, k, lexed.end) {
                    Err(e) => Err(e),
                    Ok(rest) => Ok(seq![lexed.token] + rest),
                }
            },
        }
    }
}

/// The end token of a source text.
pub open spec fn end_token(s: Seq<char>, k: Seq<CharInfo>) -> TokenView {
    token(s, k, TokenType::EOF, s.len() as int, s.len() as int)
}

/// The tokens of the text `s`, where the Unicode tables say `k` of its
/// characters. The last of them is always the end token.
pub open spec fn tokenize_with(s: Seq<char>, k: Seq<CharInfo>) -> Result<Seq<TokenView>, LexError> {
    match tokens_from(s, k, 0) {
        Err(e) => Err(e),
        Ok(tokens) => if tokens.len() > 0 && tokens.last().token_type == TokenType::EOF {
            Ok(tokens)
        } else {
            Ok(tokens.push(end_token(s, k)))
        },
    }
}

/// The tokens of a source text. The last of them is always the end token.
pub open spec fn tokenize(s: Seq<char>) -> Result<Seq<TokenView>, LexError> {
    tokenize_with(s, infos(s))
}

/// Whether a lexer's result is the one that the grammar gives.
pub open spec fn lexed_as(
    expected: Result<Seq<TokenView>, LexError>,
    r: Result<Vec<Token>, SyntaxError>,
) -> bool {
    match r {
        Ok(tokens) => expected == Ok::<_, LexError>(tokens@.map_values(|t: Token| t@)),
        Err(SyntaxError::UnexpectedChar(c)) => expected == Err::<Seq<TokenView>, _>(
            LexError::UnexpectedChar(c),
        ),
        Err(SyntaxError::UnterminatedString) => expected == Err::<Seq<TokenView>, _>(
            LexError::UnterminatedString,
        ),
        Err(_) => false,
    }
}

/// Turns source text into tokens of the first grammar.
pub struct Lexer<'a> {
    pub cursor: Cursor<'a>,
}

impl<'a> Lexer<'a> {
    fn new(source: &'a str, kinds: Vec<CharInfo>) -> (lexer: Lexer<'a>)
        ensures
            lexer.cursor.wf(),
            lexer.cursor.source@ == source@,
            lexer.cursor.kinds@ == fitted(kinds@, source@.len()),
            lexer.cursor.pos() == 0,
    {
        Lexer { cursor: Cursor::classified(source, kinds) }
    }

    /// The tokens of `source`, as `tokenize` defines them, or the error
    /// that `tokenize` gives.
    pub fn parse(source: &str) -> (r: Result<Vec<Token>, SyntaxError>)
        ensures
            lexed_as(tokenize(source@), r),
    {
        let kinds = classify_all(source);
        proof {
            assert(fitted(kinds@, source@.len()) =~= infos(source@));
        }
        Lexer::parse_classified(source, kinds)
    }

    /// The tokens of `source`, where `kinds` holds for each of its
    /// characters what the Unicode tables say of it: as `tokenize_with`
    /// defines them, or the error that it gives. Nothing here asks the
    /// tables, so on a given text and given answers the result is
    /// determined. A character without an answer is taken to belong to
    /// none of the three classes.
    pub fn parse_classified(source: &str, kinds: Vec<CharInfo>) -> (r: Result<
        Vec<Token>,
        SyntaxError,
    >)
        ensures
            lexed_as(tokenize_with(source@, fitted(kinds@, source@.len())), r),
    {
        let ghost k = fitted(kinds@, source@.len());
        let mut lexer = Lexer::new(source, kinds);
        let mut tokens: Vec<Token> = Vec::new();
        let ghost mut done: Seq<TokenView> = Seq::empty();
        while !lexer.cursor.is_at_end()
            invariant
                lexer.cursor.wf(),
                lexer.cursor.source@ == source@,
                lexer.cursor.kinds@ == k,
                k == fitted(kinds@, source@.len()),
                done == tokens@.map_values(|t: Token| t@),
                match tokens_from(source@, k, lexer.cursor.pos()) {
                    Ok(rest) => tokens_from(source@, k, 0) == Ok::<_, LexError>(done + rest),
                    Err(e) => tokens_from(source@, k, 0) == Err::<Seq<TokenView>, _>(e),
                },
            decreases source@.len() - lexer.cursor.pos(),
        {
            match lexer.read_token() {
                Ok(token) => {
                    proof {
                        let rest = tokens_from(source@, k, lexer.cursor.pos());
                        if rest is Ok {
                            assert(done + (seq![token@] + rest->Ok_0) =~= done.push(token@)
                                + rest->Ok_0);
                        }
                        assert(tokens@.push(token).map_values(|t: Token| t@) =~= done.push(
                            token@,
                        ));
                        done = done.push(token@);
                    }
                    tokens.push(token);
                },
                Err(e) => {
                    return Err(e);
                },
            }
        }
        proof {
            assert(done + Seq::<TokenView>::empty() =~= done);
        }
        let ended = tokens.len() > 0 && tokens[tokens.len() - 1].token_type == TokenType::EOF;
        if !ended {
            let end = lexer.eof();
            proof {
                assert(tokens@.push(end).map_values(|t: Token| t@) =~= done.push(end@));
            }
            tokens.push(end);
        }
        Ok(tokens)
    }

    /// Reads the next token.
    fn read_token(&mut self) -> (r: Result<Token<'a>, SyntaxError>)
        requires
            old(self).cursor.wf(),
        ensures
            final(self).cursor.wf(),
            final(self).cursor.source == old(self).cursor.source,
            final(self).cursor.kinds == old(self).cursor.kinds,
            match r {
                Ok(t) => read_token(
                    old(self).cursor.source@,
                    old(self).cursor.kinds@,
                    old(self).cursor.pos(),
                ) == Ok::<
                    _,
                    LexError,
                >(Lexed { token: t@, end: final(self).cursor.pos() }) && (old(self).cursor.pos()
                    < old(self).cursor.source@.len() ==> final(self).cursor.pos() > old(
                    self,
                ).cursor.pos()),
                Err(SyntaxError::UnexpectedChar(c)) => read_token(
                    old(self).cursor.source@,
                    old(self).cursor.kinds@,
                    old(self).cursor.pos(),
                ) == Err::<Lexed, _>(LexError::UnexpectedChar(c)),
                Err(SyntaxError::UnterminatedString) => read_token(
                    old(self).cursor.source@,
                    old(self).cursor.kinds@,
                    old(self).cursor.pos(),
                ) == Err::<Lexed, _>(LexError::UnterminatedString),
                Err(_) => false,
            },
    {
        proof {
            lemma_scan(self.cursor.source@, self.cursor.kinds@, CharClass::Blank, self.cursor.pos());
        }
        self.cursor.advance_while(CharClass::Blank);
        let (start, c) = match self.cursor.advance() {
            Some(pair) => pair,
            None => {
                return Ok(self.eof());
            },
        };
        if self.cursor.kinds[start].alphabetic {
            return Ok(self.identifier(start));
        }
        if is_digit(c) {
            return Ok(self.number(start));
        }
        let token_type = match c {
            '(' => TokenType::LeftParen,
            ')' => TokenType::RightParen,
            '{' => TokenType::LeftBrace,
            '}' => TokenType::RightBrace,
            ',' => TokenType::Comma,
            '.' => TokenType::Dot,
            '-' => TokenType::Minus,
            '+' => TokenType::Plus,
            '%' => TokenType::Percent,
            '/' => TokenType::Slash,
            '*' => TokenType::Star,
            ';' | '\n' | '\r' => TokenType::Line,
            '!' => {
                if self.cursor.match_next('=') {
                    self.cursor.advance();
                    TokenType::BangEqual
                } else {
                    TokenType::Bang
                }
            },
            '=' => {
                if self.cursor.match_next('=') {
                    self.cursor.advance();
                    TokenType::EqualEqual
                } else {
                    TokenType::Equal
                }
            },
            '<' => {
                if self.cursor.match_next('=') {
                    self.cursor.advance();
                    TokenType::LessThanEqual
                } else {
                    TokenType::LessThan
                }
            },
            '>' => {
                if self.cursor.match_next('=') {
                    self.cursor.advance();
                    TokenType::GreaterThanEqual
                } else {
                    TokenType::GreaterThan
                }
            },
            '"' => {
                return self.string(start);
            },
            '#' => {
                proof {
                    lemma_scan(
                        self.cursor.source@,
                        self.cursor.kinds@,
                        CharClass::Not('\n'),
                        self.cursor.pos(),
                    );
                }
                self.cursor.advance_while(CharClass::Not('\n'));
                self.cursor.advance();
                TokenType::LineComment
            },
            _ => {
                return Err(SyntaxError::UnexpectedChar(c));
            },
        };
        Ok(self.make_token(start, token_type))
    }

    /// The word that starts at `start`, whose first letter is consumed.
    fn identifier(&mut self, start: usize) -> (t: Token<'a>)
        requires
            old(self).cursor.wf(),
            old(self).cursor.pos() == start + 1,
        ensures
            final(self).cursor.wf(),
            final(self).cursor.source == old(self).cursor.source,
            final(self).cursor.kinds == old(self).cursor.kinds,
            final(self).cursor.pos() == scan(
                old(self).cursor.source@,
                old(self).cursor.kinds@,
                CharClass::Alphanumeric,
                start + 1,
            ),
            final(self).cursor.pos() > start,
            t@ == token(
                old(self).cursor.source@,
                old(self).cursor.kinds@,
                word_type(
                    old(self).cursor.source@.subrange(
                        start as int,
                        trimmed(old(self).cursor.kinds@, start as int, final(self).cursor.pos()),
                    ),
                ),
                start as int,
                final(self).cursor.pos(),
            ),
    {
        proof {
            lemma_scan(self.cursor.source@, self.cursor.kinds@, CharClass::Alphanumeric, self.cursor.pos());
        }
        self.cursor.advance_while(CharClass::Alphanumeric);
        let word = self.cursor.token_contents(start);
        let token_type = match Keyword::lookup(word) {
            Some(k) => TokenType::Keyword(k),
            None => TokenType::Identifier,
        };
        self.make_token(start, token_type)
    }

    /// The number that starts at `start`, whose first digit is consumed.
    fn number(&mut self, start: usize) -> (t: Token<'a>)
        requires
            old(self).cursor.wf(),
            old(self).cursor.pos() == start + 1,
        ensures
            final(self).cursor.wf(),
            final(self).cursor.source == old(self).cursor.source,
            final(self).cursor.kinds == old(self).cursor.kinds,
            final(self).cursor.pos() == number_end(
                old(self).cursor.source@,
                old(self).cursor.kinds@,
                start + 1,
            ),
            final(self).cursor.pos() > start,
            t@ == token(
                old(self).cursor.source@,
                old(self).cursor.kinds@,
                TokenType::Number,
                start as int,
                final(self).cursor.pos(),
            ),
    {
        proof {
            lemma_scan(self.cursor.source@, self.cursor.kinds@, CharClass::Digit, self.cursor.pos());
        }
        self.cursor.advance_while(CharClass::Digit);
        // Look for a fractional part
        if let Some(peek) = self.cursor.peek() {
            if peek == '.' {
                if let Some(next) = self.cursor.peek_next() {
                    if is_digit(next) {
                        // Consume the '.'
                        self.cursor.advance();
                        proof {
                            lemma_scan(
                                self.cursor.source@,
                                self.cursor.kinds@,
                                CharClass::Digit,
                                self.cursor.pos(),
                            );
                        }
                        self.cursor.advance_while(CharClass::Digit);
                    }
                }
            }
        }
        self.make_token(start, TokenType::Number)
    }

    /// The string that starts at `start`, whose opening quote is consumed.
    fn string(&mut self, start: usize) -> (r: Result<Token<'a>, SyntaxError>)
        requires
            old(self).cursor.wf(),
            old(self).cursor.pos() == start + 1,
        ensures
            final(self).cursor.wf(),
            final(self).cursor.source == old(self).cursor.source,
            final(self).cursor.kinds == old(self).cursor.kinds,
            ({
                let s = old(self).cursor.source@;
                let k = old(self).cursor.kinds@;
                let close = scan(s, k, CharClass::Not('"'), start + 1);
                match r {
                    Ok(t) => start < close < s.len() && final(self).cursor.pos() == close + 1 && t@
                        == token(s, k, TokenType::String, start as int, close + 1),
                    Err(SyntaxError::UnterminatedString) => close >= s.len(),
                    Err(_) => false,
                }
            }),
    {
        proof {
            lemma_scan(self.cursor.source@, self.cursor.kinds@, CharClass::Not('"'), self.cursor.pos());
        }
        self.cursor.advance_while(CharClass::Not('"'));
        if self.cursor.is_at_end() {
            return Err(SyntaxError::UnterminatedString);
        }
        // Consume the '"'
        self.cursor.advance();
        Ok(self.make_token(start, TokenType::String))
    }

    /// The token of type `token_type` from `start` to the cursor.
    fn make_token(&self, start: usize, token_type: TokenType) -> (t: Token<'a>)
        requires
            self.cursor.wf(),
            start <= self.cursor.pos(),
        ensures
            t@ == token(self.cursor.source@, self.cursor.kinds@, token_type, start as int, self.cursor.pos()),
    {
        let end = self.cursor.trimmed_end(start);
        let source = self.cursor.source.substring_char(start, end);
        let position = Position::new(start, end, self.cursor.line);
        Token::new(token_type, source, position)
    }

    /// The end token.
    fn eof(&self) -> (t: Token<'a>)
        requires
            self.cursor.wf(),
            self.cursor.pos() >= self.cursor.source@.len(),
        ensures
            t@ == token(
                self.cursor.source@,
                self.cursor.kinds@,
                TokenType::EOF,
                self.cursor.source@.len() as int,
                self.cursor.source@.len() as int,
            ),
    {
        self.make_token(self.cursor.chars.position, TokenType::EOF)
    }
}

} // verus!
