//! The grammar of type expressions, stated over the buffer as a sequence of
//! code points: for every offset, what the parser returns and where it
//! leaves the cursor.

use super::{is_trivia, lemma_next_significant, next_significant, Failure, Significant};
use crate::cursor::Span;
use crate::token::keyword::Keyword;
use crate::token::scan::{lemma_scan, scan, Lexeme};
use crate::token::symbol::{Bracket, Symbol};
use crate::token::{TokenError, TokenType};
use vstd::prelude::*;

verus! {

/// A type expression as plain values.
pub enum TypeTree {
    /// A named type applied to zero or more type arguments.
    Basic { name: Seq<char>, parameters: Seq<TypeTree> },
    /// A function type: meta parameters, value parameters, return type.
    Fun {
        meta_parameters: Seq<TypeTree>,
        value_parameters: Seq<TypeTree>,
        return_type: Box<TypeTree>,
    },
    /// The type of a type, written with `typeof`.
    Meta { base_type: Box<TypeTree> },
    /// No type stands here: the parser declined without reading a token.
    Empty,
}

/// The two groups of a parameter list: meta parameters, value parameters.
pub type Phases = (Seq<TypeTree>, Seq<TypeTree>);

/// The outcome of one parsing step: the span `[start, end)` that it is
/// located at, the value or the failure, and the offset at which the cursor
/// is left.
pub struct Parsed<T> {
    pub start: int,
    pub end: int,
    pub value: Result<T, Failure>,
    pub cursor: int,
}

impl<T> Parsed<T> {
    /// A failed step seen as the failure of the step around it: span,
    /// failure and cursor stay as they are.
    pub open spec fn fail_as<U>(self) -> Parsed<U> {
        Parsed { start: self.start, end: self.end, value: Err(self.value->Err_0), cursor: self.cursor }
    }
}

/// The failure of the scanner at `tok`, passed on unchanged with its span.
pub open spec fn scan_failure<T>(tok: Significant, error: TokenError) -> Parsed<T> {
    Parsed { start: tok.start, end: tok.end, value: Err(Failure::Token(error)), cursor: tok.end }
}

/// The failure to accept the token at `tok`, of class `value`, where
/// `expected` describes what the grammar allows there. Its span is that of
/// the token, which has been read.
pub open spec fn unexpected<T>(
    src: Seq<char>,
    tok: Significant,
    value: TokenType,
    expected: Seq<char>,
) -> Parsed<T> {
    Parsed {
        start: tok.start,
        end: tok.end,
        value: Err(
            Failure::UnexpectedToken(
                Lexeme { value, span: Span { src, start: tok.start, end: tok.end } },
                expected,
            ),
        ),
        cursor: tok.end,
    }
}

/// `next` is an offset of `src` that is not before `pos`. The cursor of a
/// parsing step that began at `pos` always is (`lemma_type_settled` and the
/// lemmas beside it). The grammar asks for it before it goes on from such a
/// cursor, which shows that its recursion ends.
pub open spec fn onward(src: Seq<char>, pos: int, next: int) -> bool {
    pos <= next <= src.len()
}

/// The outcome `p` of a parsing step that began at `pos` is settled: its
/// span is ordered and ends where the cursor is left, and the cursor is in
/// the buffer, not before `pos`.
pub open spec fn settled<T>(src: Seq<char>, pos: int, p: Parsed<T>) -> bool {
    &&& p.start <= p.end
    &&& p.end == p.cursor
    &&& onward(src, pos, p.cursor)
}

/// A type parsed from offset `pos`. The next significant token decides:
/// `typeof` is followed by a type, which it wraps; `fun` begins a function
/// type; an identifier begins a basic type; the end of input is a failure;
/// any other token is left unread, and the result is `Empty`, located at
/// that token.
pub open spec fn parse_type(src: Seq<char>, pos: int) -> Parsed<TypeTree>
    decreases src.len() - pos, 0nat,
    when 0 <= pos <= src.len()
{
    let tok = next_significant(src, pos);
    match tok.kind {
        Err(error) => scan_failure(tok, error),
        Ok(TokenType::Keyword(Keyword::Typeof)) => {
            proof {
                lemma_next_significant(src, pos);
            }
            let base = parse_type(src, tok.end);
            match base.value {
                Err(_) => base,
                Ok(base_type) => Parsed {
                    start: tok.start,
                    end: base.cursor,
                    value: Ok(TypeTree::Meta { base_type: Box::new(base_type) }),
                    cursor: base.cursor,
                },
            }
        },
        Ok(TokenType::Keyword(Keyword::Fun)) => {
            proof {
                lemma_next_significant(src, pos);
            }
            parse_fun(src, tok.end, tok.start)
        },
        Ok(TokenType::Identifier) => {
            proof {
                lemma_next_significant(src, pos);
            }
            parse_basic(src, tok.end, tok.start, src.subrange(tok.start, tok.end))
        },
        Ok(TokenType::Eof) => unexpected(src, tok, TokenType::Eof, "a type"@),
        Ok(_) => Parsed {
            start: tok.start,
            end: tok.start,
            value: Ok(TypeTree::Empty),
            cursor: tok.start,
        },
    }
}

/// The parameters of a list, parsed from offset `pos`, where a parameter is
/// due; `meta` and `value` hold the parameters read so far, and `phased`
/// tells whether a `;` may still end the meta parameters. A parameter is
/// followed by `,` and the next one, by `;` and the value parameters, or by
/// the closing `)`. Where no type stands, only the closing `)` may.
pub open spec fn parse_params_from(
    src: Seq<char>,
    pos: int,
    start: int,
    meta: Seq<TypeTree>,
    value: Seq<TypeTree>,
    phased: bool,
) -> Parsed<Phases>
    decreases src.len() - pos, 1nat,
    when 0 <= pos <= src.len()
{
    let param = parse_type(src, pos);
    match param.value {
        Err(_) => param.fail_as(),
        Ok(TypeTree::Empty) => {
            let close = scan(src, param.cursor);
            let tok = Significant { start: param.cursor, end: close.end, kind: close.kind };
            match close.kind {
                Err(error) => scan_failure(tok, error),
                Ok(TokenType::Symbol(Symbol::BracketClose(Bracket::Paren))) => Parsed {
                    start,
                    end: close.end,
                    value: Ok((meta, value)),
                    cursor: close.end,
                },
                Ok(other) => unexpected(src, tok, other, "a type or `,`"@),
            }
        },
        Ok(parameter) => if onward(src, pos, param.cursor) {
            let value = value.push(parameter);
            let sep = next_significant(src, param.cursor);
            proof {
                lemma_next_significant(src, param.cursor);
            }
            match sep.kind {
                Err(error) => scan_failure(sep, error),
                Ok(TokenType::Symbol(Symbol::Comma)) => parse_params_from(
                    src,
                    sep.end,
                    start,
                    meta,
                    value,
                    phased,
                ),
                Ok(TokenType::Symbol(Symbol::Semicolon)) => if phased {
                    parse_params_from(src, sep.end, start, value, seq![], false)
                } else {
                    unexpected(src, sep, TokenType::Symbol(Symbol::Semicolon), "`,`, `)`"@)
                },
                Ok(TokenType::Symbol(Symbol::BracketClose(Bracket::Paren))) => Parsed {
                    start,
                    end: sep.end,
                    value: Ok((meta, value)),
                    cursor: sep.end,
                },
                Ok(other) => unexpected(
                    src,
                    sep,
                    other,
                    if phased {
                        "`,`, `;`, `)`"@
                    } else {
                        "`,`, `)`"@
                    },
                ),
            }
        } else {
            arbitrary()
        },
    }
}

/// A parameter list parsed from offset `pos`, just after its `(`. With
/// `multi_phase`, one `;` may part meta parameters from value parameters;
/// without, all parameters are value parameters. A `)` at once is the empty
/// list, located at that `)`; the end of input is a failure.
pub open spec fn parse_params(src: Seq<char>, pos: int, multi_phase: bool) -> Parsed<Phases>
    decreases src.len() - pos, 2nat,
    when 0 <= pos <= src.len()
{
    let first = next_significant(src, pos);
    match first.kind {
        Err(error) => scan_failure(first, error),
        Ok(TokenType::Symbol(Symbol::BracketClose(Bracket::Paren))) => Parsed {
            start: first.start,
            end: first.end,
            value: Ok((seq![], seq![])),
            cursor: first.end,
        },
        Ok(TokenType::Eof) => unexpected(src, first, TokenType::Eof, "a type or `)`"@),
        Ok(_) => {
            proof {
                lemma_next_significant(src, pos);
            }
            parse_params_from(src, first.start, first.start, seq![], seq![], multi_phase)
        },
    }
}

/// The rest of a basic type, parsed from offset `pos`, just after its name;
/// the type began at `start`. A `(` opens its parameters, which have one
/// phase. Any other token is left unread: the name alone is the type.
pub open spec fn parse_basic(src: Seq<char>, pos: int, start: int, name: Seq<char>) -> Parsed<
    TypeTree,
>
    decreases src.len() - pos, 3nat,
    when 0 <= pos <= src.len()
{
    let open = next_significant(src, pos);
    match open.kind {
        Err(error) => scan_failure(open, error),
        Ok(TokenType::Symbol(Symbol::BracketOpen(Bracket::Paren))) => {
            proof {
                lemma_next_significant(src, pos);
            }
            let list = parse_params(src, open.end, false);
            match list.value {
                Err(_) => list.fail_as(),
                Ok((_, parameters)) => Parsed {
                    start,
                    end: list.cursor,
                    value: Ok(TypeTree::Basic { name, parameters }),
                    cursor: list.cursor,
                },
            }
        },
        Ok(_) => Parsed {
            start,
            end: open.start,
            value: Ok(TypeTree::Basic { name, parameters: seq![] }),
            cursor: open.start,
        },
    }
}

/// The rest of a function type, parsed from offset `pos`, just after `fun`;
/// the type began at `start`. A `(` must open its parameters, which may have
/// two phases; the type after them, which may be `Empty`, is the return type.
pub open spec fn parse_fun(src: Seq<char>, pos: int, start: int) -> Parsed<TypeTree>
    decreases src.len() - pos, 3nat,
    when 0 <= pos <= src.len()
{
    let open = next_significant(src, pos);
    match open.kind {
        Err(error) => scan_failure(open, error),
        Ok(TokenType::Symbol(Symbol::BracketOpen(Bracket::Paren))) => {
            proof {
                lemma_next_significant(src, pos);
            }
            let list = parse_params(src, open.end, true);
            match list.value {
                Err(_) => list.fail_as(),
                Ok((meta_parameters, value_parameters)) => if onward(src, pos, list.cursor) {
                    let ret = parse_type(src, list.cursor);
                    match ret.value {
                        Err(_) => ret,
                        Ok(return_type) => Parsed {
                            start,
                            end: ret.cursor,
                            value: Ok(
                                TypeTree::Fun {
                                    meta_parameters,
                                    value_parameters,
                                    return_type: Box::new(return_type),
                                },
                            ),
                            cursor: ret.cursor,
                        },
                    }
                } else {
                    arbitrary()
                },
            }
        },
        Ok(other) => unexpected(src, open, other, "`(`"@),
    }
}

/// The outcome of parsing a type is settled, and its span does not begin
/// before the offset that parsing began at.
pub proof fn lemma_type_settled(src: Seq<char>, pos: int)
    requires
        0 <= pos <= src.len(),
    ensures
        settled(src, pos, parse_type(src, pos)),
        pos <= parse_type(src, pos).start,
    decreases src.len() - pos, 0nat,
{
    lemma_next_significant(src, pos);
    let tok = next_significant(src, pos);
    match tok.kind {
        Ok(TokenType::Keyword(Keyword::Typeof)) => {
            lemma_type_settled(src, tok.end);
        },
        Ok(TokenType::Keyword(Keyword::Fun)) => {
            lemma_fun_settled(src, tok.end, tok.start);
        },
        Ok(TokenType::Identifier) => {
            lemma_basic_settled(src, tok.end, tok.start, src.subrange(tok.start, tok.end));
        },
        _ => {},
    }
}

/// The outcome of parsing parameters is settled and not located before the
/// list, if the list began no later than they do.
pub proof fn lemma_params_from_settled(
    src: Seq<char>,
    pos: int,
    start: int,
    meta: Seq<TypeTree>,
    value: Seq<TypeTree>,
    phased: bool,
)
    requires
        0 <= pos <= src.len(),
        start <= pos,
    ensures
        settled(src, pos, parse_params_from(src, pos, start, meta, value, phased)),
        start <= parse_params_from(src, pos, start, meta, value, phased).start,
    decreases src.len() - pos, 1nat,
{
    lemma_type_settled(src, pos);
    let param = parse_type(src, pos);
    match param.value {
        Err(_) => {},
        Ok(TypeTree::Empty) => {
            lemma_scan(src, param.cursor);
        },
        Ok(parameter) => {
            lemma_next_significant(src, param.cursor);
            let sep = next_significant(src, param.cursor);
            match sep.kind {
                Ok(TokenType::Symbol(Symbol::Comma)) => {
                    lemma_params_from_settled(
                        src,
                        sep.end,
                        start,
                        meta,
                        value.push(parameter),
                        phased,
                    );
                },
                Ok(TokenType::Symbol(Symbol::Semicolon)) => {
                    if phased {
                        lemma_params_from_settled(
                            src,
                            sep.end,
                            start,
                            value.push(parameter),
                            seq![],
                            false,
                        );
                    }
                },
                _ => {},
            }
        },
    }
}

/// The outcome of parsing a parameter list is settled, and its span does
/// not begin before the offset that parsing began at.
pub proof fn lemma_params_settled(src: Seq<char>, pos: int, multi_phase: bool)
    requires
        0 <= pos <= src.len(),
    ensures
        settled(src, pos, parse_params(src, pos, multi_phase)),
        pos <= parse_params(src, pos, multi_phase).start,
    decreases src.len() - pos, 2nat,
{
    lemma_next_significant(src, pos);
    let first = next_significant(src, pos);
    match first.kind {
        Err(_) => {},
        Ok(TokenType::Symbol(Symbol::BracketClose(Bracket::Paren))) => {},
        Ok(TokenType::Eof) => {},
        Ok(_) => {
            lemma_params_from_settled(src, first.start, first.start, seq![], seq![], multi_phase);
        },
    }
}

/// The outcome of parsing the rest of a basic type is settled and not
/// located before the type, if the type began no later than its rest.
pub proof fn lemma_basic_settled(src: Seq<char>, pos: int, start: int, name: Seq<char>)
    requires
        0 <= pos <= src.len(),
        start <= pos,
    ensures
        settled(src, pos, parse_basic(src, pos, start, name)),
        start <= parse_basic(src, pos, start, name).start,
    decreases src.len() - pos, 3nat,
{
    lemma_next_significant(src, pos);
    let open = next_significant(src, pos);
    match open.kind {
        Ok(TokenType::Symbol(Symbol::BracketOpen(Bracket::Paren))) => {
            lemma_params_settled(src, open.end, false);
        },
        _ => {},
    }
}

/// The outcome of parsing the rest of a function type is settled and not
/// located before the type, if the type began no later than its rest.
pub proof fn lemma_fun_settled(src: Seq<char>, pos: int, start: int)
    requires
        0 <= pos <= src.len(),
        start <= pos,
    ensures
        settled(src, pos, parse_fun(src, pos, start)),
        start <= parse_fun(src, pos, start).start,
    decreases src.len() - pos, 3nat,
{
    lemma_next_significant(src, pos);
    let open = next_significant(src, pos);
    match open.kind {
        Ok(TokenType::Symbol(Symbol::BracketOpen(Bracket::Paren))) => {
            lemma_params_settled(src, open.end, true);
            let list = parse_params(src, open.end, true);
            if list.value is Ok {
                lemma_type_settled(src, list.cursor);
            }
        },
        _ => {},
    }
}

/// Declining is stable. Where parsing a type from `pos` gives `Empty`, the
/// cursor is left at the token that was declined, with nothing but
/// whitespace and comments between `pos` and it, and at `pos` itself where
/// none stand there. The next significant token seen from the cursor is the
/// one seen from `pos`, and parsing a type from the cursor gives the same
/// `Empty` and leaves the cursor where it is.
pub proof fn lemma_empty_is_stable(src: Seq<char>, pos: int)
    requires
        0 <= pos <= src.len(),
        parse_type(src, pos).value == Ok::<TypeTree, Failure>(TypeTree::Empty),
    ensures
        pos <= parse_type(src, pos).cursor <= src.len(),
        parse_type(src, pos).cursor == next_significant(src, pos).start,
        !is_trivia(scan(src, pos).kind) ==> parse_type(src, pos).cursor == pos,
        next_significant(src, parse_type(src, pos).cursor) == next_significant(src, pos),
        parse_type(src, parse_type(src, pos).cursor) == parse_type(src, pos),
        parse_type(src, parse_type(src, pos).cursor).cursor == parse_type(src, pos).cursor,
{
    lemma_next_significant(src, pos);
    let tok = next_significant(src, pos);
    match tok.kind {
        Ok(TokenType::Keyword(Keyword::Fun)) => {
            lemma_fun_never_empty(src, tok.end, tok.start);
        },
        Ok(TokenType::Identifier) => {
            lemma_basic_never_empty(src, tok.end, tok.start, src.subrange(tok.start, tok.end));
        },
        _ => {},
    }
}

/// The rest of a basic type never parses to `Empty`.
pub proof fn lemma_basic_never_empty(src: Seq<char>, pos: int, start: int, name: Seq<char>)
    requires
        0 <= pos <= src.len(),
    ensures
        parse_basic(src, pos, start, name).value != Ok::<TypeTree, Failure>(TypeTree::Empty),
{
}

/// The rest of a function type never parses to `Empty`.
pub proof fn lemma_fun_never_empty(src: Seq<char>, pos: int, start: int)
    requires
        0 <= pos <= src.len(),
    ensures
        parse_fun(src, pos, start).value != Ok::<TypeTree, Failure>(TypeTree::Empty),
{
    lemma_next_significant(src, pos);
    let open = next_significant(src, pos);
    match open.kind {
        Ok(TokenType::Symbol(Symbol::BracketOpen(Bracket::Paren))) => {
            lemma_params_settled(src, open.end, true);
        },
        _ => {},
    }
}

} // verus!
