//! Tokens and the scanner that produces them.

pub mod classes;
pub mod keyword;
pub mod scan;
pub mod symbol;

use crate::cursor::{CursorState, Span, SrcStr, StringCursor};
use crate::location::{Location, Locational};
use crate::text::{closer_end, lemma_run_end_is, other_than, run_end, same_as};
use classes::{ident_cont, ident_conts, ident_start, lead, spaced_digit, spaced_digits, Lead};
pub use keyword::Keyword;
pub use symbol::{Bracket, Symbol};
use vstd::prelude::*;

verus! {

/// The class of a token.
#[derive(Debug, PartialEq, Eq, Clone, Copy, Structural)]
pub enum TokenType {
    /// A line comment without its line feed, or a block comment with both
    /// its markers.
    Comment,
    /// A word that is no keyword.
    Identifier,
    /// A word of the keyword table.
    Keyword(Keyword),
    /// Digits and `_`, with at most one `.`.
    Number,
    /// A string with both its quotes.
    String,
    /// An operator or a bracket.
    Symbol(Symbol),
    /// A run of one repeated whitespace character.
    Whitespace,
    /// One character that begins no token, as the lenient scanner hands it
    /// out.
    UnknownChar,
    /// The end of the buffer; its text is empty.
    Eof,
}

/// Why scanning failed.
#[derive(Debug, PartialEq, Eq, Clone, Copy, Structural)]
pub enum TokenError {
    /// A string whose closing quote never comes.
    UnclosedString,
    /// A number in which a second `.` follows the fraction.
    MultiDottedNumber,
    /// A block comment whose closing `*/` never comes.
    UnclosedComment,
    /// A character that begins no token.
    UnknownChar(char),
}

/// A classified piece of source text.
#[derive(Debug, Clone, PartialEq, Eq)]
pub struct Token {
    pub value: TokenType,
    pub src: SrcStr,
}

impl View for Token {
    type V = scan::Lexeme;

    open spec fn view(&self) -> scan::Lexeme {
        scan::Lexeme { value: self.value, span: self.src@ }
    }
}

/// The tokens of a sequence as plain values, in order.
pub open spec fn views(tokens: Seq<Token>) -> Seq<scan::Lexeme> {
    tokens.map_values(|token: Token| token@)
}

impl From<StringCursor> for Vec<Token> {
    /// Scans leniently from the cursor on: the tokens up to and including
    /// the end-of-input token, or up to the first failure. The tokens lie
    /// one after the other, so that their texts, joined, are the buffer from
    /// the cursor to where the scan ended; and where it ended with the
    /// end-of-input token, they are the whole buffer from the cursor on.
    fn from(cursor: StringCursor) -> (out: Self)
        ensures
            cursor@.wf(),
            views(out@) == scan::lexemes(cursor@.src, cursor@.idx),
            scan::concat_text(views(out@)) == cursor@.src.subrange(
                cursor@.idx,
                scan::lexemes_end(cursor@.src, cursor@.idx),
            ),
            out@.len() > 0 && out@.last().value == TokenType::Eof ==> scan::concat_text(
                views(out@),
            ) == cursor@.src.subrange(cursor@.idx, cursor@.src.len() as int),
    {
        let mut walker = cursor;
        let ghost src = walker@.src;
        let ghost from = walker@.idx;
        let mut out: Vec<Token> = Vec::new();
        proof {
            assert(views(out@) =~= Seq::<scan::Lexeme>::empty());
        }
        loop
            invariant
                src == cursor@.src,
                from == cursor@.idx,
                walker@.src == src,
                walker@ == cursor@ || (walker@.wf() && cursor@.wf()),
                views(out@) + scan::lexemes(src, walker@.idx) == scan::lexemes(src, from),
            decreases src.len() - walker@.idx,
        {
            let ghost at = walker@.idx;
            let ghost before = views(out@);
            let next = Token::from(&mut walker);
            proof {
                scan::lemma_scan(src, at);
                scan::lemma_tokens_cover(src, from);
            }
            match next {
                None => {
                    assert(before + Seq::<scan::Lexeme>::empty() =~= before);
                    return out;
                },
                Some(token) => {
                    let done = match token.value {
                        TokenType::Eof => true,
                        _ => false,
                    };
                    let ghost lexeme = token@;
                    out.push(token);
                    proof {
                        assert(views(out@) =~= before.push(lexeme));
                        assert(before + (seq![lexeme] + scan::lexemes(src, walker@.idx))
                            =~= before.push(lexeme) + scan::lexemes(src, walker@.idx));
                    }
                    if done {
                        assert(before + seq![lexeme] =~= before.push(lexeme));
                        assert(views(out@).last() == out@.last()@);
                        return out;
                    }
                },
            }
        }
    }
}

/// What the conversion gives is stated by the `ensures` of `from`, over the
/// views of the tokens. The law of the trait would have to name the vector
/// itself, which no specification can write down; it is not claimed.
impl vstd::std_specs::convert::FromSpecImpl<StringCursor> for Vec<Token> {
    open spec fn obeys_from_spec() -> bool {
        false
    }

    open spec fn from_spec(cursor: StringCursor) -> Self {
        arbitrary()
    }
}

impl Token {
    /// Scans one token at the cursor. The span of the outcome is the text
    /// that was read; the cursor is left at its end, with nothing pending.
    pub fn from_cursor(cursor: &mut StringCursor) -> (r: Locational<Result<Self, TokenError>>)
        ensures
            scan::scanned(old(cursor)@, final(cursor)@, r),
    {
        let (kind, src) = Self::read(cursor);
        let loc = Location::new(src.start(), src.end());
        match kind {
            Ok(value) => Locational::from_loc(loc, Ok(Token { value, src })),
            Err(error) => Locational::from_loc(loc, Err(error)),
        }
    }

    /// Scans one token at the cursor, leniently: a character that begins no
    /// token is handed out as a token of class `UnknownChar`. Any other
    /// failure gives `None`; the cursor is then where the failure was found.
    pub fn from(cursor: &mut StringCursor) -> (r: Option<Self>)
        ensures
            old(cursor)@.wf(),
            final(cursor)@.wf(),
            final(cursor)@ == (CursorState {
                src: old(cursor)@.src,
                idx: scan::scan(old(cursor)@.src, old(cursor)@.idx).end,
                start: scan::scan(old(cursor)@.src, old(cursor)@.idx).end,
            }),
            match scan::lexeme_at(old(cursor)@.src, old(cursor)@.idx) {
                Some(lexeme) => r matches Some(token) && token@ == lexeme,
                None => r is None,
            },
    {
        let (kind, src) = Self::read(cursor);
        match kind {
            Ok(value) => Some(Token { value, src }),
            Err(TokenError::UnknownChar(_)) => Some(Token { value: TokenType::UnknownChar, src }),
            Err(_) => None,
        }
    }

    /// Scans at the cursor, dropping what was pending, and folds: the class
    /// of the token found, or the failure, with the span of the text that
    /// was read.
    fn read(cursor: &mut StringCursor) -> (r: (Result<TokenType, TokenError>, SrcStr))
        ensures
            old(cursor)@.wf(),
            final(cursor)@.wf(),
            final(cursor)@ == (CursorState {
                src: old(cursor)@.src,
                idx: scan::scan(old(cursor)@.src, old(cursor)@.idx).end,
                start: scan::scan(old(cursor)@.src, old(cursor)@.idx).end,
            }),
            r.0 == scan::scan(old(cursor)@.src, old(cursor)@.idx).kind,
            r.1@.wf(),
            r.1@ == (Span {
                src: old(cursor)@.src,
                start: old(cursor)@.idx,
                end: scan::scan(old(cursor)@.src, old(cursor)@.idx).end,
            }),
    {
        let start_pos = cursor.position();
        cursor.restore(start_pos);
        let kind = Self::classify(cursor);
        (kind, cursor.fold())
    }

    /// Reads one token at the cursor, which has nothing pending, and tells
    /// its class or the failure. The character under the cursor and the one
    /// after it, which is looked at and then, unless the two mark a comment,
    /// returned from, decide what is read.
    fn classify(cursor: &mut StringCursor) -> (r: Result<TokenType, TokenError>)
        requires
            old(cursor)@.wf(),
            old(cursor)@.start == old(cursor)@.idx,
        ensures
            final(cursor)@.wf(),
            final(cursor)@ == old(cursor)@.at(scan::scan(old(cursor)@.src, old(cursor)@.idx).end),
            r == scan::scan(old(cursor)@.src, old(cursor)@.idx).kind,
    {
        let c = match cursor.current() {
            Some(c) => c,
            None => {
                return Ok(TokenType::Eof);
            },
        };
        let next = cursor.next();
        let begins = lead(c, next, c.is_whitespace(), ident_start(c));
        match begins {
            Lead::LineComment => {
                cursor.advance();
            },
            Lead::BlockComment => {
                cursor.advance();
            },
            _ => {
                cursor.rollback();
            },
        }
        match begins {
            Lead::Whitespace => {
                Self::extract_whitespace(cursor, c);
                Ok(TokenType::Whitespace)
            },
            Lead::LineComment => {
                Self::extract_comment(cursor, false);
                Ok(TokenType::Comment)
            },
            Lead::BlockComment => {
                if Self::extract_comment(cursor, true) {
                    Ok(TokenType::Comment)
                } else {
                    Err(TokenError::UnclosedComment)
                }
            },
            Lead::Word => Ok(Self::extract_ident(cursor)),
            Lead::String => {
                if Self::extract_string(cursor, c) {
                    Ok(TokenType::String)
                } else {
                    Err(TokenError::UnclosedString)
                }
            },
            Lead::Number => {
                if Self::extract_number(cursor) {
                    Ok(TokenType::Number)
                } else {
                    Err(TokenError::MultiDottedNumber)
                }
            },
            Lead::Other => {
                if let Some(symbol) = Symbol::from_cursor(cursor) {
                    return Ok(TokenType::Symbol(symbol));
                }
                cursor.advance();
                Err(TokenError::UnknownChar(c))
            },
        }
    }

    /// Reads a string whose opening quote, `closing_char`, is under the
    /// cursor, through its closing quote. A backslash takes the character
    /// after it along. Tells whether the closing quote was found; if not, the
    /// cursor is at the end of the buffer.
    pub fn extract_string(cursor: &mut StringCursor, closing_char: char) -> (closed: bool)
        ensures
            old(cursor)@.wf(),
            final(cursor)@.wf(),
            closed == closer_end(
                old(cursor)@.src,
                old(cursor)@.forward().idx,
                seq![closing_char],
                true,
            ) is Some,
            final(cursor)@ == old(cursor)@.at(
                match closer_end(
                    old(cursor)@.src,
                    old(cursor)@.forward().idx,
                    seq![closing_char],
                    true,
                ) {
                    Some(end) => end,
                    None => old(cursor)@.src.len() as int,
                },
            ),
    {
        cursor.advance();
        let ghost pat = seq![closing_char];
        loop
            invariant
                old(cursor)@.wf(),
                cursor@.wf(),
                cursor@ == old(cursor)@.at(cursor@.idx),
                pat == seq![closing_char],
                closer_end(cursor@.src, cursor@.idx, pat, true) == closer_end(
                    old(cursor)@.src,
                    old(cursor)@.forward().idx,
                    pat,
                    true,
                ),
            decreases cursor@.src.len() - cursor@.idx,
        {
            proof {
                if cursor@.idx < cursor@.src.len() {
                    assert(cursor@.src.subrange(cursor@.idx, cursor@.idx + 1) =~= seq![
                        cursor@.src[cursor@.idx],
                    ]);
                    assert(pat[0] == closing_char);
                }
            }
            match cursor.current() {
                None => {
                    return false;
                },
                Some(char) => {
                    cursor.advance();
                    if char == closing_char {
                        return true;
                    }
                    if char == '\\' {
                        if cursor.current().is_none() {
                            return false;
                        }
                        cursor.advance();
                    }
                },
            }
        }
    }

    /// Reads a comment whose marker has just been passed. A line comment
    /// ends in front of the next line feed or at the end of the buffer. A
    /// block comment ends with its closing `*/`; the result tells whether
    /// that was found, and if not, the cursor is at the end of the buffer.
    pub fn extract_comment(cursor: &mut StringCursor, multiline: bool) -> (closed: bool)
        ensures
            old(cursor)@.wf(),
            final(cursor)@.wf(),
            !multiline ==> closed && final(cursor)@ == old(cursor)@.at(
                run_end(old(cursor)@.src, old(cursor)@.idx, other_than('\n')),
            ),
            multiline ==> closed == closer_end(
                old(cursor)@.src,
                old(cursor)@.idx,
                "*/"@,
                false,
            ) is Some && final(cursor)@ == old(cursor)@.at(
                match closer_end(old(cursor)@.src, old(cursor)@.idx, "*/"@, false) {
                    Some(end) => end,
                    None => old(cursor)@.src.len() as int,
                },
            ),
    {
        if multiline {
            cursor.consume_until("*/", false).is_some()
        } else {
            let ghost from = cursor@.idx;
            let in_line = |c: char| -> (r: bool)
                ensures
                    r == (c != '\n'),
                { c != '\n' };
            cursor.consume_func(in_line);
            proof {
                lemma_run_end_is(cursor@.src, from, cursor@.idx, other_than('\n'));
            }
            true
        }
    }

    /// Reads the longest run of the one character `whitespace_char`.
    pub fn extract_whitespace(cursor: &mut StringCursor, whitespace_char: char)
        ensures
            old(cursor)@.wf(),
            final(cursor)@.wf(),
            final(cursor)@ == old(cursor)@.at(
                run_end(old(cursor)@.src, old(cursor)@.idx, same_as(whitespace_char)),
            ),
    {
        let ghost from = cursor@.idx;
        let same = |c: char| -> (r: bool)
            ensures
                r == (c == whitespace_char),
            { c == whitespace_char };
        cursor.consume_func(same);
        proof {
            lemma_run_end_is(cursor@.src, from, cursor@.idx, same_as(whitespace_char));
        }
    }

    /// Reads a word whose first character is under the cursor and tells
    /// whether the pending text, which ends with it, is a keyword or an
    /// identifier.
    pub fn extract_ident(cursor: &mut StringCursor) -> (r: TokenType)
        ensures
            old(cursor)@.wf(),
            final(cursor)@.wf(),
            final(cursor)@ == old(cursor)@.at(
                run_end(old(cursor)@.src, old(cursor)@.forward().idx, ident_conts()),
            ),
            r == scan::word_kind(
                old(cursor)@.src.subrange(old(cursor)@.start, final(cursor)@.idx),
            ),
    {
        cursor.advance();
        let ghost from = cursor@.idx;
        cursor.consume_func(ident_cont);
        proof {
            lemma_run_end_is(cursor@.src, from, cursor@.idx, ident_conts());
        }
        match Keyword::from_str(cursor.pending()) {
            Some(keyword) => TokenType::Keyword(keyword),
            None => TokenType::Identifier,
        }
    }

    /// Reads a number. Tells whether it is well formed; if a second `.`
    /// follows the fraction it is not, and the cursor stops in front of that
    /// `.`.
    pub fn extract_number(cursor: &mut StringCursor) -> (r: bool)
        ensures
            old(cursor)@.wf(),
            final(cursor)@.wf(),
            final(cursor)@ == old(cursor)@.at(
                scan::number_at(old(cursor)@.src, old(cursor)@.idx).end,
            ),
            r == scan::number_at(old(cursor)@.src, old(cursor)@.idx).kind is Ok,
    {
        let ghost from = cursor@.idx;
        cursor.consume_func(spaced_digit);
        proof {
            lemma_run_end_is(cursor@.src, from, cursor@.idx, spaced_digits());
        }
        if let Some(dot) = cursor.current() {
            if dot == '.' {
                cursor.advance();
                let ghost from = cursor@.idx;
                cursor.consume_func(spaced_digit);
                proof {
                    lemma_run_end_is(cursor@.src, from, cursor@.idx, spaced_digits());
                }
                if let Some(second) = cursor.current() {
                    if second == '.' {
                        return false;
                    }
                }
            }
        }
        true
    }
}

} // verus!
