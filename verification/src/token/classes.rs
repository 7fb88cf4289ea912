//! Character classes that the scanner tells apart.

use vstd::prelude::*;

verus! {

/// What `char::is_whitespace` answers for `c`.
pub uninterp spec fn whitespace(c: char) -> bool;

/// What `char::is_alphabetic` answers for `c`.
pub uninterp spec fn alphabetic(c: char) -> bool;

/// What `char::is_alphanumeric` answers for `c`.
pub uninterp spec fn alphanumeric(c: char) -> bool;

/// `char::is_whitespace` decides by the character alone whether it has the
/// Unicode property White_Space; the answer is given the name `whitespace`.
pub assume_specification[ char::is_whitespace ](c: char) -> (r: bool)
    ensures
        r == whitespace(c),
;

/// `char::is_alphabetic` decides by the character alone whether it has the
/// Unicode property Alphabetic; the answer is given the name `alphabetic`.
pub assume_specification[ char::is_alphabetic ](c: char) -> (r: bool)
    ensures
        r == alphabetic(c),
;

/// `char::is_alphanumeric` decides by the character alone whether it is a
/// Unicode letter or number; the answer is given the name `alphanumeric`.
pub assume_specification[ char::is_alphanumeric ](c: char) -> (r: bool)
    ensures
        r == alphanumeric(c),
;

/// A decimal digit, `0` to `9`.
pub open spec fn is_digit(c: char) -> bool {
    '0' <= c && c <= '9'
}

/// A decimal digit or the separator `_`.
pub open spec fn is_spaced_digit(c: char) -> bool {
    is_digit(c) || c == '_'
}

/// A character that may begin an identifier: a letter or `_`.
pub open spec fn is_ident_start(c: char) -> bool {
    alphabetic(c) || c == '_'
}

/// A character that may continue an identifier: a letter, a number or `_`.
pub open spec fn is_ident_cont(c: char) -> bool {
    alphanumeric(c) || c == '_'
}

/// A character that opens and closes a string: `"` or `'`.
pub open spec fn is_quote(c: char) -> bool {
    c == '"' || c == '\''
}

/// What the first character of a token begins.
#[derive(Debug, PartialEq, Eq, Clone, Copy, Structural)]
pub enum Lead {
    /// A run of whitespace.
    Whitespace,
    /// A comment that ends with its line: `//`.
    LineComment,
    /// A comment that ends with `*/`: `/*`.
    BlockComment,
    /// An identifier or a keyword.
    Word,
    /// A string.
    String,
    /// A number.
    Number,
    /// A symbol, or nothing that the scanner knows.
    Other,
}

/// What the character `c` begins when `next` follows it, if anything does;
/// `space` tells whether `c` is whitespace and `word` whether it may begin
/// an identifier. The first of these that applies decides: whitespace; a
/// comment marker; the start of a word; a quote; a digit.
pub open spec fn lead_of(c: char, next: Option<char>, space: bool, word: bool) -> Lead {
    if space {
        Lead::Whitespace
    } else if c == '/' && next == Some('/') {
        Lead::LineComment
    } else if c == '/' && next == Some('*') {
        Lead::BlockComment
    } else if word {
        Lead::Word
    } else if is_quote(c) {
        Lead::String
    } else if is_digit(c) {
        Lead::Number
    } else {
        Lead::Other
    }
}

/// `is_spaced_digit` as a predicate on characters.
pub open spec fn spaced_digits() -> spec_fn(char) -> bool {
    |c: char| is_spaced_digit(c)
}

/// `is_ident_cont` as a predicate on characters.
pub open spec fn ident_conts() -> spec_fn(char) -> bool {
    |c: char| is_ident_cont(c)
}

/// Tells whether `c` is a decimal digit.
pub fn digit(c: char) -> (r: bool)
    ensures
        r == is_digit(c),
{
    '0' <= c && c <= '9'
}

/// Tells whether `c` is a decimal digit or `_`.
pub fn spaced_digit(c: char) -> (r: bool)
    ensures
        r == is_spaced_digit(c),
{
    digit(c) || c == '_'
}

/// Tells whether `c` may begin an identifier.
pub fn ident_start(c: char) -> (r: bool)
    ensures
        r == is_ident_start(c),
{
    c.is_alphabetic() || c == '_'
}

/// Tells whether `c` may continue an identifier.
pub fn ident_cont(c: char) -> (r: bool)
    ensures
        r == is_ident_cont(c),
{
    c.is_alphanumeric() || c == '_'
}

/// Tells whether `c` is a quote.
pub fn quote(c: char) -> (r: bool)
    ensures
        r == is_quote(c),
{
    c == '"' || c == '\''
}

/// Decides what the character `c`, followed by `next`, begins, given
/// whether it is whitespace and whether it may begin an identifier.
pub fn lead(c: char, next: Option<char>, space: bool, word: bool) -> (r: Lead)
    ensures
        r == lead_of(c, next, space, word),
{
    if space {
        return Lead::Whitespace;
    }
    if c == '/' {
        if let Some(mark) = next {
            if mark == '/' {
                return Lead::LineComment;
            }
            if mark == '*' {
                return Lead::BlockComment;
            }
        }
    }
    if word {
        Lead::Word
    } else if quote(c) {
        Lead::String
    } else if digit(c) {
        Lead::Number
    } else {
        Lead::Other
    }
}

} // verus!
