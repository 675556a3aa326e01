use crate::syntax::token::{Position, Token, TokenType, TokenView};
use vstd::prelude::*;

verus! {

/// Whether a token of this type is a comment.
pub open spec fn is_comment(ty: TokenType) -> bool {
    ty == TokenType::Comment || ty == TokenType::LineComment
}

/// The line break behind the token `t`: it stands where `t` ends and has no
/// text.
pub open spec fn line_break(t: TokenView) -> TokenView {
    TokenView {
        token_type: TokenType::Line,
        source: Seq::empty(),
        position: Position { start: t.position.end, end: t.position.end, line: t.position.line },
    }
}

/// The first `n` tokens as the parser wants them.
///
/// - Comments are gone.
/// - A semicolon is a line break.
/// - Between two tokens of which the second ends on a later line than the
///   first stands a line break.
/// - No line break stands first, and none follows a line break.
pub open spec fn cleaned(tokens: Seq<TokenView>, n: int) -> Seq<TokenView>
    decreases n,
{
    if n <= 0 || n > tokens.len() {
        Seq::empty()
    } else {
        let before = cleaned(tokens, n - 1);
        let t = tokens[n - 1];
        let open = before.len() > 0 && before.last().token_type != TokenType::Line;
        if is_comment(t.token_type) {
            before
        } else if t.token_type == TokenType::Semicolon || t.token_type == TokenType::Line {
            if open {
                before.push(TokenView { token_type: TokenType::Line, ..t })
            } else {
                before
            }
        } else if open && before.last().position.line < t.position.line {
            before.push(line_break(before.last())).push(t)
        } else {
            before.push(t)
        }
    }
}

/// Cleans a sequence of tokens into the sequence that the parser reads:
/// without comments, and with one line break wherever a statement may end.
pub fn morph<'a>(tokens: Vec<Token<'a>>) -> (r: Vec<Token<'a>>)
    ensures
        r@.map_values(|t: Token| t@) == cleaned(
            tokens@.map_values(|t: Token| t@),
            tokens@.len() as int,
        ),
{
    let mut out: Vec<Token<'a>> = Vec::new();
    let mut i: usize = 0;
    while i < tokens.len()
        invariant
            i <= tokens.len(),
            out@.map_values(|t: Token| t@) == cleaned(tokens@.map_values(|t: Token| t@), i as int),
        decreases tokens.len() - i,
    {
        let token = tokens[i];
        let ghost before = out@.map_values(|t: Token| t@);
        let open = out.len() > 0 && out[out.len() - 1].token_type != TokenType::Line;
        match token.token_type {
            TokenType::Comment | TokenType::LineComment => {},
            TokenType::Semicolon | TokenType::Line => {
                if open {
                    let line = Token::new(TokenType::Line, token.source, token.position);
                    out.push(line);
                    proof {
                        assert(out@.map_values(|t: Token| t@) =~= before.push(line@));
                    }
                }
            },
            _ => {
                if open && out[out.len() - 1].position.line < token.position.line {
                    let last = out[out.len() - 1];
                    let empty: &'static str = "";
                    proof {
                        reveal_strlit("");
                        assert(empty@ =~= Seq::<char>::empty());
                    }
                    let line = Token::new(
                        TokenType::Line,
                        empty,
                        Position::new(last.position.end, last.position.end, last.position.line),
                    );
                    out.push(line);
                    out.push(token);
                    proof {
                        assert(out@.map_values(|t: Token| t@) =~= before.push(line@).push(token@));
                    }
                } else {
                    out.push(token);
                    proof {
                        assert(out@.map_values(|t: Token| t@) =~= before.push(token@));
                    }
                }
            },
        }
        i += 1;
    }
    out
}

} // verus!
