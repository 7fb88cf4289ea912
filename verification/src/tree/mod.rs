//! The syntax tree and its parser.

pub mod classes;
pub mod functions;
pub mod grammar;
pub mod traits;
pub mod types;
pub mod variables;

use crate::cursor::{CursorState, Span, StringCursor};
use crate::location::Locational;
use crate::token::scan::{lemma_scan, scan, Lexeme, Scanned};
use crate::token::{Token, TokenError, TokenType};
use vstd::prelude::*;

verus! {

/// Why parsing failed.
#[derive(Debug, Clone, PartialEq, Eq)]
pub enum ParseError {
    /// The scanner failed; its error is passed on as it is.
    Token(TokenError),
    /// A token that the grammar does not allow where it stands, with a
    /// description of what was expected there.
    UnexpectedToken(Token, String),
}

/// A parse error as plain values.
pub enum Failure {
    Token(TokenError),
    UnexpectedToken(Lexeme, Seq<char>),
}

impl View for ParseError {
    type V = Failure;

    open spec fn view(&self) -> Failure {
        match self {
            ParseError::Token(error) => Failure::Token(*error),
            ParseError::UnexpectedToken(token, expected) => Failure::UnexpectedToken(
                token@,
                expected@,
            ),
        }
    }
}

impl From<TokenError> for ParseError {
    /// A failure of the scanner as a failure of the parser.
    fn from(value: TokenError) -> (r: Self) {
        Self::Token(value)
    }
}

impl vstd::std_specs::convert::FromSpecImpl<TokenError> for ParseError {
    open spec fn obeys_from_spec() -> bool {
        true
    }

    open spec fn from_spec(value: TokenError) -> Self {
        Self::Token(value)
    }
}

/// The class of a token is whitespace or a comment: text that the grammar
/// does not see.
pub open spec fn is_trivia(kind: Result<TokenType, TokenError>) -> bool {
    kind == Ok::<TokenType, TokenError>(TokenType::Whitespace) || kind == Ok::<
        TokenType,
        TokenError,
    >(TokenType::Comment)
}

/// The outcome of scanning for a token that the grammar sees: where it
/// begins, where it ends, and its class or the scanner's failure.
pub struct Significant {
    pub start: int,
    pub end: int,
    pub kind: Result<TokenType, TokenError>,
}

/// The first outcome of scanning from `pos` on that is neither whitespace
/// nor a comment.
pub open spec fn next_significant(src: Seq<char>, pos: int) -> Significant
    decreases src.len() - pos,
    when 0 <= pos <= src.len()
{
    let s = scan(src, pos);
    if is_trivia(s.kind) {
        proof {
            lemma_scan(src, pos);
        }
        next_significant(src, s.end)
    } else {
        Significant { start: pos, end: s.end, kind: s.kind }
    }
}

/// The next significant outcome lies in the buffer at or after the offset
/// that the search began at, is what the scanner finds where it begins, is
/// no trivia, and is empty only if it is the end of input.
pub proof fn lemma_next_significant(src: Seq<char>, pos: int)
    requires
        0 <= pos <= src.len(),
    ensures
        pos <= next_significant(src, pos).start <= next_significant(src, pos).end <= src.len(),
        !is_trivia(next_significant(src, pos).kind),
        scan(src, next_significant(src, pos).start) == (Scanned {
            kind: next_significant(src, pos).kind,
            end: next_significant(src, pos).end,
        }),
        next_significant(src, pos).kind != Ok::<TokenType, TokenError>(TokenType::Eof)
            ==> next_significant(src, pos).start < next_significant(src, pos).end,
        next_significant(src, next_significant(src, pos).start) == next_significant(src, pos),
    decreases src.len() - pos,
{
    lemma_scan(src, pos);
    let s = scan(src, pos);
    if is_trivia(s.kind) {
        lemma_next_significant(src, s.end);
    }
}

/// How a search for the next significant token relates the cursor before
/// it, the cursor after it and the located outcome.
pub open spec fn found_significant(
    pre: CursorState,
    post: CursorState,
    r: Locational<Result<Token, TokenError>>,
) -> bool {
    let sig = next_significant(pre.src, pre.idx);
    &&& pre.wf()
    &&& post.wf()
    &&& post == (CursorState { src: pre.src, idx: sig.end, start: sig.end })
    &&& r.loc.start == sig.start
    &&& r.loc.end == sig.end
    &&& pre.idx <= r.loc.start
    &&& r.loc.within(pre.src.len())
    &&& match sig.kind {
        Ok(value) => r.t matches Ok(token) && token@ == (Lexeme {
            value,
            span: Span { src: pre.src, start: sig.start, end: sig.end },
        }),
        Err(error) => r.t matches Err(e) && e == error,
    }
}

/// Scans tokens until one is neither whitespace nor a comment, and hands
/// that one out. A failure of the scanner on the way is handed out as it is.
pub fn next_non_space(cursor: &mut StringCursor) -> (r: Locational<Result<Token, TokenError>>)
    ensures
        found_significant(old(cursor)@, final(cursor)@, r),
{
    let ghost src = cursor@.src;
    loop
        invariant
            cursor@.src == src,
            src == old(cursor)@.src,
            cursor@ == old(cursor)@ || (cursor@.wf() && old(cursor)@.wf()),
            next_significant(src, cursor@.idx) == next_significant(src, old(cursor)@.idx),
        decreases src.len() - cursor@.idx,
    {
        let ghost before = cursor@.idx;
        let token = cursor.next_token();
        proof {
            lemma_scan(src, before);
            lemma_next_significant(src, before);
            lemma_next_significant(src, old(cursor)@.idx);
        }
        let trivia = match &token.t {
            Ok(t) => match t.value {
                TokenType::Whitespace => true,
                TokenType::Comment => true,
                _ => false,
            },
            Err(_) => false,
        };
        if !trivia {
            return token;
        }
    }
}

} // verus!
