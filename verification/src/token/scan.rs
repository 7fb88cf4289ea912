//! What the scanner produces, stated over the buffer as a sequence of code
//! points.

use super::classes::{
    ident_conts, is_digit, is_ident_start, is_quote, is_spaced_digit, lead_of, spaced_digits,
    whitespace, Lead,
};
use super::keyword::keyword_of;
use super::symbol::symbol_at;
use super::{TokenError, TokenType};
use crate::cursor::{CursorState, Span};
use crate::location::Locational;
use crate::text::{
    closer_end, lemma_closer_end, lemma_run_end, lemma_run_end_advances, other_than, run_end,
    same_as,
};
use vstd::prelude::*;

verus! {

/// The outcome of scanning at one offset: the class of the token found
/// there, or the reason why there is none, and the offset where it ends.
pub struct Scanned {
    pub kind: Result<TokenType, TokenError>,
    pub end: int,
}

/// A token as plain values: its class and the span of its text.
pub struct Lexeme {
    pub value: TokenType,
    pub span: Span,
}

/// The line comment whose marker stands at `pos`: it runs up to, and not
/// into, the next line feed, or to the end of the buffer.
pub open spec fn line_comment_at(src: Seq<char>, pos: int) -> Scanned {
    Scanned { kind: Ok(TokenType::Comment), end: run_end(src, pos + 2, other_than('\n')) }
}

/// The block comment whose marker stands at `pos`: it runs through the
/// first `*/` after the marker. One that is never closed is a failure that
/// reaches the end of the buffer.
pub open spec fn block_comment_at(src: Seq<char>, pos: int) -> Scanned {
    match closer_end(src, pos + 2, "*/"@, false) {
        Some(end) => Scanned { kind: Ok(TokenType::Comment), end },
        None => Scanned { kind: Err(TokenError::UnclosedComment), end: src.len() as int },
    }
}

/// The class of a word: a keyword if the keyword table holds it, else an
/// identifier.
pub open spec fn word_kind(text: Seq<char>) -> TokenType {
    match keyword_of(text) {
        Some(keyword) => TokenType::Keyword(keyword),
        None => TokenType::Identifier,
    }
}

/// The word whose first character stands at `pos`.
pub open spec fn word_at(src: Seq<char>, pos: int) -> Scanned {
    let end = run_end(src, pos + 1, ident_conts());
    Scanned { kind: Ok(word_kind(src.subrange(pos, end))), end }
}

/// The string whose opening quote stands at `pos`: it ends with the next
/// occurrence of the same quote that no backslash escapes. One that is never
/// closed is a failure that reaches the end of the buffer.
pub open spec fn string_at(src: Seq<char>, pos: int) -> Scanned {
    match closer_end(src, pos + 1, seq![src[pos]], true) {
        Some(end) => Scanned { kind: Ok(TokenType::String), end },
        None => Scanned { kind: Err(TokenError::UnclosedString), end: src.len() as int },
    }
}

/// The number that begins at `pos`: digits and `_`, then at most one `.`
/// with more digits and `_`. A second `.` right after those is a failure
/// that ends in front of it.
pub open spec fn number_at(src: Seq<char>, pos: int) -> Scanned {
    let whole = run_end(src, pos, spaced_digits());
    if whole < src.len() && src[whole] == '.' {
        let fraction = run_end(src, whole + 1, spaced_digits());
        if fraction < src.len() && src[fraction] == '.' {
            Scanned { kind: Err(TokenError::MultiDottedNumber), end: fraction }
        } else {
            Scanned { kind: Ok(TokenType::Number), end: fraction }
        }
    } else {
        Scanned { kind: Ok(TokenType::Number), end: whole }
    }
}

/// The symbol at `pos`, or the failure to recognise the character there.
pub open spec fn symbol_or_unknown_at(src: Seq<char>, pos: int) -> Scanned {
    match symbol_at(src, pos) {
        Some((symbol, n)) => Scanned { kind: Ok(TokenType::Symbol(symbol)), end: pos + n },
        None => Scanned { kind: Err(TokenError::UnknownChar(src[pos])), end: pos + 1 },
    }
}

/// The character of `src` at `pos`, if there is one.
pub open spec fn char_at(src: Seq<char>, pos: int) -> Option<char> {
    if 0 <= pos < src.len() {
        Some(src[pos])
    } else {
        None
    }
}

/// What the character at `pos` begins.
pub open spec fn lead_at(src: Seq<char>, pos: int) -> Lead {
    lead_of(src[pos], char_at(src, pos + 1), whitespace(src[pos]), is_ident_start(src[pos]))
}

/// The outcome of scanning `src` at `pos`: the end of input at the end of
/// the buffer, and before it what the character at `pos` begins. Whitespace
/// is a run of that one character; a symbol is matched longest first, and a
/// character that begins nothing is a failure of one code point.
pub open spec fn scan(src: Seq<char>, pos: int) -> Scanned {
    if pos < 0 || pos >= src.len() {
        Scanned { kind: Ok(TokenType::Eof), end: pos }
    } else {
        match lead_at(src, pos) {
            Lead::Whitespace => Scanned {
                kind: Ok(TokenType::Whitespace),
                end: run_end(src, pos, same_as(src[pos])),
            },
            Lead::LineComment => line_comment_at(src, pos),
            Lead::BlockComment => block_comment_at(src, pos),
            Lead::Word => word_at(src, pos),
            Lead::String => string_at(src, pos),
            Lead::Number => number_at(src, pos),
            Lead::Other => symbol_or_unknown_at(src, pos),
        }
    }
}

/// The token that the lenient scanner hands out at `pos`: an unrecognised
/// character is a token of its own class, and any other failure ends the
/// stream.
pub open spec fn lexeme_at(src: Seq<char>, pos: int) -> Option<Lexeme> {
    let s = scan(src, pos);
    let span = Span { src, start: pos, end: s.end };
    match s.kind {
        Ok(value) => Some(Lexeme { value, span }),
        Err(TokenError::UnknownChar(_)) => Some(Lexeme { value: TokenType::UnknownChar, span }),
        Err(_) => None,
    }
}

/// The tokens that the lenient scanner hands out from `pos` on, up to and
/// including the end-of-input token, or up to the first failure.
pub open spec fn lexemes(src: Seq<char>, pos: int) -> Seq<Lexeme>
    decreases src.len() - pos,
    when 0 <= pos <= src.len()
{
    match lexeme_at(src, pos) {
        None => seq![],
        Some(lexeme) => if lexeme.value == TokenType::Eof {
            seq![lexeme]
        } else {
            proof {
                lemma_scan(src, pos);
            }
            seq![lexeme] + lexemes(src, lexeme.span.end)
        },
    }
}

/// The spans of the outcomes that the scanner yields from `pos` on, one
/// scan after the other, failures among them, through the end-of-input
/// token.
pub open spec fn outcome_spans(src: Seq<char>, pos: int) -> Seq<Span>
    decreases src.len() - pos,
    when 0 <= pos <= src.len()
{
    let span = Span { src, start: pos, end: scan(src, pos).end };
    if pos >= src.len() {
        seq![span]
    } else {
        proof {
            lemma_scan(src, pos);
        }
        seq![span] + outcome_spans(src, span.end)
    }
}

/// The spans of `tokens`, in order.
pub open spec fn spans_of(tokens: Seq<Lexeme>) -> Seq<Span> {
    tokens.map_values(|token: Lexeme| token.span)
}

/// The texts of `spans`, one after the other.
pub open spec fn joined(spans: Seq<Span>) -> Seq<char>
    decreases spans.len(),
{
    if spans.len() == 0 {
        seq![]
    } else {
        spans[0].text() + joined(spans.drop_first())
    }
}

/// The texts of `tokens`, one after the other.
pub open spec fn concat_text(tokens: Seq<Lexeme>) -> Seq<char> {
    joined(spans_of(tokens))
}

/// `spans` lie in `src` one after the other from `from` to `to`: the first
/// begins at `from`, each begins where the one before it ends, and the last
/// ends at `to`. No spans chain an offset to itself.
pub open spec fn chained(spans: Seq<Span>, src: Seq<char>, from: int, to: int) -> bool
    decreases spans.len(),
{
    if spans.len() == 0 {
        from == to
    } else {
        &&& spans[0].src == src
        &&& spans[0].start == from
        &&& from <= spans[0].end <= src.len()
        &&& chained(spans.drop_first(), src, spans[0].end, to)
    }
}

/// The offset at which the tokens scanned from `pos` on end.
pub open spec fn lexemes_end(src: Seq<char>, pos: int) -> int {
    let tokens = lexemes(src, pos);
    if tokens.len() == 0 {
        pos
    } else {
        tokens.last().span.end
    }
}

/// How one scanning step relates the cursor before it, the cursor after it
/// and the located outcome: both cursors are well formed, the outcome is that
/// of `scan` at the current offset, its span begins there and ends where the
/// cursor now stands, inside the buffer, and the fold start has caught up
/// with the cursor.
pub open spec fn scanned(
    pre: CursorState,
    post: CursorState,
    r: Locational<Result<super::Token, TokenError>>,
) -> bool {
    let s = scan(pre.src, pre.idx);
    &&& pre.wf()
    &&& post.wf()
    &&& post == (CursorState { src: pre.src, idx: s.end, start: s.end })
    &&& r.loc.start == pre.idx
    &&& r.loc.end == s.end
    &&& r.loc.within(pre.src.len())
    &&& match s.kind {
        Ok(value) => r.t matches Ok(token) && token@ == (Lexeme {
            value,
            span: Span { src: pre.src, start: pre.idx, end: s.end },
        }),
        Err(error) => r.t matches Err(e) && e == error,
    }
}

/// Scanning never leaves the buffer, reports the end of input exactly at
/// its end, and before that always moves forward.
pub proof fn lemma_scan(src: Seq<char>, pos: int)
    requires
        0 <= pos <= src.len(),
    ensures
        pos <= scan(src, pos).end <= src.len(),
        scan(src, pos).kind == Ok::<TokenType, TokenError>(TokenType::Eof) <==> pos == src.len(),
        pos < src.len() ==> pos < scan(src, pos).end,
{
    if pos < src.len() {
        let c = src[pos];
        match lead_at(src, pos) {
            Lead::Whitespace => {
                lemma_run_end_advances(src, pos, same_as(c));
            },
            Lead::LineComment => {
                lemma_run_end(src, pos + 2, other_than('\n'));
            },
            Lead::BlockComment => {
                lemma_closer_end(src, pos + 2, "*/"@, false);
            },
            Lead::Word => {
                lemma_run_end(src, pos + 1, ident_conts());
            },
            Lead::String => {
                lemma_closer_end(src, pos + 1, seq![c], true);
            },
            Lead::Number => {
                lemma_run_end_advances(src, pos, spaced_digits());
                let whole = run_end(src, pos, spaced_digits());
                if whole < src.len() {
                    lemma_run_end(src, whole + 1, spaced_digits());
                }
            },
            Lead::Other => {},
        }
    }
}

/// Whitespace coalesces. A token that begins on a whitespace character is a
/// whitespace token. It covers every repetition of that character that
/// follows without a break and nothing else: what comes after it, if
/// anything does, is another character.
pub proof fn lemma_whitespace_coalesces(src: Seq<char>, pos: int)
    requires
        0 <= pos < src.len(),
        whitespace(src[pos]),
    ensures
        scan(src, pos).kind == Ok::<TokenType, TokenError>(TokenType::Whitespace),
        pos < scan(src, pos).end <= src.len(),
        forall|i: int| pos <= i < scan(src, pos).end ==> #[trigger] src[i] == src[pos],
        scan(src, pos).end < src.len() ==> src[scan(src, pos).end] != src[pos],
{
    lemma_run_end(src, pos, same_as(src[pos]));
    lemma_run_end_advances(src, pos, same_as(src[pos]));
}

/// An unclosed string reaches the end of input. The scanner reports one
/// exactly where a quote begins a token and no closing quote follows; the
/// failure then spans from that quote to the end of the buffer.
pub proof fn lemma_unclosed_string(src: Seq<char>, pos: int)
    requires
        0 <= pos <= src.len(),
    ensures
        scan(src, pos).kind == Err::<TokenType, TokenError>(TokenError::UnclosedString) <==> {
            &&& pos < src.len()
            &&& lead_at(src, pos) == Lead::String
            &&& closer_end(src, pos + 1, seq![src[pos]], true) is None
        },
        pos < src.len() && lead_at(src, pos) == Lead::String ==> is_quote(src[pos]),
        scan(src, pos).kind == Err::<TokenType, TokenError>(TokenError::UnclosedString) ==> scan(
            src,
            pos,
        ).end == src.len(),
{
}

/// A malformed number ends in front of its second dot. Where the scanner
/// reports one, the failure spans from the first digit through one `.` and
/// what follows it of digits and `_`, and the character after the span is
/// the second `.`.
pub proof fn lemma_multi_dotted_number(src: Seq<char>, pos: int)
    requires
        0 <= pos <= src.len(),
        scan(src, pos).kind == Err::<TokenType, TokenError>(TokenError::MultiDottedNumber),
    ensures
        pos < scan(src, pos).end < src.len(),
        is_digit(src[pos]),
        src[scan(src, pos).end] == '.',
        exists|dot: int|
            {
                &&& pos < dot < scan(src, pos).end
                &&& #[trigger] src[dot] == '.'
                &&& forall|i: int| pos <= i < dot ==> is_spaced_digit(#[trigger] src[i])
                &&& forall|i: int|
                    dot < i < scan(src, pos).end ==> is_spaced_digit(#[trigger] src[i])
            },
{
    lemma_run_end_advances(src, pos, spaced_digits());
    let whole = run_end(src, pos, spaced_digits());
    lemma_run_end(src, pos, spaced_digits());
    lemma_run_end(src, whole + 1, spaced_digits());
    assert(src[whole] == '.');
}

/// The texts of spans that lie one after the other from `from` to `to`
/// make up the buffer from `from` to `to`.
pub proof fn lemma_chained_text(spans: Seq<Span>, src: Seq<char>, from: int, to: int)
    requires
        0 <= from <= src.len(),
        chained(spans, src, from, to),
    ensures
        from <= to <= src.len(),
        joined(spans) == src.subrange(from, to),
    decreases spans.len(),
{
    if spans.len() == 0 {
        assert(joined(spans) =~= src.subrange(from, to));
    } else {
        let mid = spans[0].end;
        lemma_chained_text(spans.drop_first(), src, mid, to);
        assert(src.subrange(from, mid) + src.subrange(mid, to) =~= src.subrange(from, to));
    }
}

/// The outcomes scanned from `pos` on lie one after the other from `pos` to
/// the end of the buffer.
pub proof fn lemma_outcomes_chained(src: Seq<char>, pos: int)
    requires
        0 <= pos <= src.len(),
    ensures
        outcome_spans(src, pos).len() > 0,
        chained(outcome_spans(src, pos), src, pos, src.len() as int),
    decreases src.len() - pos,
{
    lemma_scan(src, pos);
    let span = Span { src, start: pos, end: scan(src, pos).end };
    if pos >= src.len() {
        reveal_with_fuel(chained, 2);
        assert(outcome_spans(src, pos).drop_first() =~= Seq::<Span>::empty());
    } else {
        lemma_outcomes_chained(src, span.end);
        assert(outcome_spans(src, pos).drop_first() =~= outcome_spans(src, span.end));
    }
}

/// Total coverage, for every buffer. The spans of the outcomes that the
/// scanner yields from `pos` on, through the end-of-input token, cover the
/// buffer from `pos` on with no gap and no overlap: their texts, one after
/// the other, are the buffer from `pos` on, and from the beginning they are
/// the buffer.
pub proof fn lemma_outcomes_cover(src: Seq<char>, pos: int)
    requires
        0 <= pos <= src.len(),
    ensures
        joined(outcome_spans(src, pos)) == src.subrange(pos, src.len() as int),
        pos == 0 ==> joined(outcome_spans(src, pos)) == src,
{
    lemma_outcomes_chained(src, pos);
    lemma_chained_text(outcome_spans(src, pos), src, pos, src.len() as int);
    assert(src.subrange(0, src.len() as int) =~= src);
}

/// The tokens scanned leniently from `pos` on lie one after the other from
/// `pos` to their end, and an end-of-input token comes last and only at the
/// end of the buffer.
pub proof fn lemma_lexemes_chained(src: Seq<char>, pos: int)
    requires
        0 <= pos <= src.len(),
    ensures
        chained(spans_of(lexemes(src, pos)), src, pos, lexemes_end(src, pos)),
        pos <= lexemes_end(src, pos) <= src.len(),
        forall|i: int|
            0 <= i < lexemes(src, pos).len() && (#[trigger] lexemes(src, pos)[i]).value
                == TokenType::Eof ==> i == lexemes(src, pos).len() - 1 && lexemes_end(src, pos)
                == src.len(),
    decreases src.len() - pos,
{
    lemma_scan(src, pos);
    match lexeme_at(src, pos) {
        None => {},
        Some(lexeme) => {
            let all = lexemes(src, pos);
            if lexeme.value != TokenType::Eof {
                let rest = lexemes(src, lexeme.span.end);
                lemma_lexemes_chained(src, lexeme.span.end);
                assert(all == seq![lexeme] + rest);
                assert(spans_of(all).drop_first() =~= spans_of(rest));
                assert(all[0] == lexeme);
                if rest.len() > 0 {
                    assert(all.last() == rest.last());
                }
                assert forall|i: int|
                    0 <= i < all.len() && (#[trigger] all[i]).value
                        == TokenType::Eof implies i == all.len() - 1 && lexemes_end(src, pos)
                    == src.len() by {
                    if i > 0 {
                        assert(all[i] == rest[i - 1]);
                    }
                }
            } else {
                reveal_with_fuel(chained, 2);
                assert(spans_of(all).drop_first() =~= Seq::<Span>::empty());
            }
        },
    }
}

/// Total coverage of a lenient scan. The texts of the tokens scanned from
/// `pos` on, one after the other, are the buffer from `pos` to where the
/// tokens end, with no gap and no overlap; and where the scan reaches the
/// end-of-input token, they are the whole buffer from `pos` on.
pub proof fn lemma_tokens_cover(src: Seq<char>, pos: int)
    requires
        0 <= pos <= src.len(),
    ensures
        concat_text(lexemes(src, pos)) == src.subrange(pos, lexemes_end(src, pos)),
        lexemes(src, pos).len() > 0 && lexemes(src, pos).last().value == TokenType::Eof
            ==> concat_text(lexemes(src, pos)) == src.subrange(pos, src.len() as int),
        pos == 0 && lexemes(src, pos).len() > 0 && lexemes(src, pos).last().value
            == TokenType::Eof ==> concat_text(lexemes(src, pos)) == src,
{
    lemma_lexemes_chained(src, pos);
    lemma_chained_text(spans_of(lexemes(src, pos)), src, pos, lexemes_end(src, pos));
    assert(src.subrange(0, src.len() as int) =~= src);
}

} // verus!
