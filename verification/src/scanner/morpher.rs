use crate::scanner::token::{Token, TokenType, TokenView};
use vstd::prelude::*;

verus! {

/// Whether a token of this type is a comment.
pub open spec fn is_comment(ty: TokenType) -> bool {
    ty == TokenType::Comment || ty == TokenType::LineComment
}

/// The first `n` tokens without what means nothing to the parser: comments,
/// a line break at the start, and a line break that follows a line break.
pub open spec fn cleaned(tokens: Seq<TokenView>, n: int) -> Seq<TokenView>
    decreases n,
{
    if n <= 0 || n > tokens.len() {
        Seq::empty()
    } else {
        let before = cleaned(tokens, n - 1);
        let t = tokens[n - 1];
        if is_comment(t.token_type) {
            before
        } else if t.token_type == TokenType::Line && (before.len() == 0
            || before.last().token_type == TokenType::Line) {
            before
        } else {
            before.push(t)
        }
    }
}

/// Cleans a sequence of tokens into a token sequence of meaningful tokens.
/// Tokens that are removed from the sequence:
/// - Comments
/// - Unessential lines
pub fn morph<'a>(tokens: Vec<Token<'a>>) -> (r: Vec<Token<'a>>)
    ensures
        r@.map_values(|t: Token| t@) == cleaned(
            tokens@.map_values(|t: Token| t@),
            tokens@.len() as int,
        ),
{
    let mut out: Vec<Token<'a>> = Vec::new();
    let mut i: usize = 0;
    while i < tokens.len()
        invariant
            i <= tokens.len(),
            out@.map_values(|t: Token| t@) == cleaned(tokens@.map_values(|t: Token| t@), i as int),
        decreases tokens.len() - i,
    {
        let token = tokens[i];
        let ghost before = out@.map_values(|t: Token| t@);
        let keep = match token.token_type {
            TokenType::Comment | TokenType::LineComment => false,
            TokenType::Line => out.len() > 0 && out[out.len() - 1].token_type != TokenType::Line,
            _ => true,
        };
        if keep {
            out.push(token);
            proof {
                assert(out@.map_values(|t: Token| t@) =~= before.push(token@));
            }
        }
        i += 1;
    }
    out
}

} // verus!
