//! The operator and bracket tables, and longest-first symbol matching.

use crate::cursor::StringCursor;
use vstd::prelude::*;

verus! {

/// The kind of a bracket, whichever of its two characters was read. The
/// characters `<` and `>` are comparison operators, never brackets.
#[derive(Debug, PartialEq, Eq, Clone, Copy, Structural)]
pub enum Bracket {
    /// `{` and `}`
    Curly,
    /// `(` and `)`
    Paren,
    /// `[` and `]`
    Square,
}

/// An operator or a bracket.
#[derive(Debug, PartialEq, Eq, Clone, Copy, Structural)]
pub enum Symbol {
    /// `&&`
    And,
    /// `&=`
    AndAssign,
    /// `&`
    AndBitwise,
    /// `->`
    Arrow,
    /// `=`
    Assign,
    /// `{`, `(` or `[`
    BracketOpen(Bracket),
    /// `}`, `)` or `]`
    BracketClose(Bracket),
    /// `:`
    Colon,
    /// `:?`
    ColonQuestion,
    /// `,`
    Comma,
    /// `--`
    Decrement,
    /// `/`
    Div,
    /// `/=`
    DivAssign,
    /// `$`
    Dollar,
    /// `.`
    Dot,
    /// `==`
    Equal,
    /// `>`
    Greater,
    /// `>=`
    GreaterEqual,
    /// `++`
    Increment,
    /// `<`
    Less,
    /// `<=`
    LessEqual,
    /// `-`
    Minus,
    /// `-=`
    MinusAssign,
    /// `*`
    Mult,
    /// `*=`
    MultAssign,
    /// `!`
    Not,
    /// `!=`
    NotEqual,
    /// `||`
    Or,
    /// `|=`
    OrAssign,
    /// `|`
    OrBitwise,
    /// `%`
    Percent,
    /// `+`
    Plus,
    /// `+=`
    PlusAssign,
    /// `?`
    Question,
    /// `;`
    Semicolon,
    /// `<<`
    ShiftLeft,
    /// `<<=`
    ShiftLeftAssign,
    /// `>>`
    ShiftRight,
    /// `>>=`
    ShiftRightAssign,
    /// `^^`
    Xor,
    /// `^=`
    XorAssign,
    /// `^`
    XorBitwise,
}

/// The bracket kind that `c` opens.
pub open spec fn opening_bracket(c: char) -> Option<Bracket> {
    if c == '{' {
        Some(Bracket::Curly)
    } else if c == '(' {
        Some(Bracket::Paren)
    } else if c == '[' {
        Some(Bracket::Square)
    } else {
        None
    }
}

/// The bracket kind that `c` closes.
pub open spec fn closing_bracket(c: char) -> Option<Bracket> {
    if c == '}' {
        Some(Bracket::Curly)
    } else if c == ')' {
        Some(Bracket::Paren)
    } else if c == ']' {
        Some(Bracket::Square)
    } else {
        None
    }
}

/// The symbol that the single character `c` spells.
pub open spec fn single_symbol(c: char) -> Option<Symbol> {
    if opening_bracket(c) is Some {
        Some(Symbol::BracketOpen(opening_bracket(c)->0))
    } else if closing_bracket(c) is Some {
        Some(Symbol::BracketClose(closing_bracket(c)->0))
    } else if c == '&' {
        Some(Symbol::AndBitwise)
    } else if c == '=' {
        Some(Symbol::Assign)
    } else if c == ':' {
        Some(Symbol::Colon)
    } else if c == ',' {
        Some(Symbol::Comma)
    } else if c == '/' {
        Some(Symbol::Div)
    } else if c == '$' {
        Some(Symbol::Dollar)
    } else if c == '.' {
        Some(Symbol::Dot)
    } else if c == '>' {
        Some(Symbol::Greater)
    } else if c == '<' {
        Some(Symbol::Less)
    } else if c == '-' {
        Some(Symbol::Minus)
    } else if c == '*' {
        Some(Symbol::Mult)
    } else if c == '!' {
        Some(Symbol::Not)
    } else if c == '|' {
        Some(Symbol::OrBitwise)
    } else if c == '%' {
        Some(Symbol::Percent)
    } else if c == '+' {
        Some(Symbol::Plus)
    } else if c == '?' {
        Some(Symbol::Question)
    } else if c == ';' {
        Some(Symbol::Semicolon)
    } else if c == '^' {
        Some(Symbol::XorBitwise)
    } else {
        None
    }
}

/// The symbol that the two characters `a`, `b` spell together.
pub open spec fn double_symbol(a: char, b: char) -> Option<Symbol> {
    if a == '&' && b == '&' {
        Some(Symbol::And)
    } else if a == '&' && b == '=' {
        Some(Symbol::AndAssign)
    } else if a == '-' && b == '>' {
        Some(Symbol::Arrow)
    } else if a == ':' && b == '?' {
        Some(Symbol::ColonQuestion)
    } else if a == '-' && b == '-' {
        Some(Symbol::Decrement)
    } else if a == '/' && b == '=' {
        Some(Symbol::DivAssign)
    } else if a == '=' && b == '=' {
        Some(Symbol::Equal)
    } else if a == '>' && b == '=' {
        Some(Symbol::GreaterEqual)
    } else if a == '+' && b == '+' {
        Some(Symbol::Increment)
    } else if a == '<' && b == '=' {
        Some(Symbol::LessEqual)
    } else if a == '-' && b == '=' {
        Some(Symbol::MinusAssign)
    } else if a == '*' && b == '=' {
        Some(Symbol::MultAssign)
    } else if a == '!' && b == '=' {
        Some(Symbol::NotEqual)
    } else if a == '|' && b == '|' {
        Some(Symbol::Or)
    } else if a == '|' && b == '=' {
        Some(Symbol::OrAssign)
    } else if a == '+' && b == '=' {
        Some(Symbol::PlusAssign)
    } else if a == '<' && b == '<' {
        Some(Symbol::ShiftLeft)
    } else if a == '>' && b == '>' {
        Some(Symbol::ShiftRight)
    } else if a == '^' && b == '^' {
        Some(Symbol::Xor)
    } else if a == '^' && b == '=' {
        Some(Symbol::XorAssign)
    } else {
        None
    }
}

/// The symbol that the three characters `a`, `b`, `c` spell together.
pub open spec fn triple_symbol(a: char, b: char, c: char) -> Option<Symbol> {
    if a == '<' && b == '<' && c == '=' {
        Some(Symbol::ShiftLeftAssign)
    } else if a == '>' && b == '>' && c == '=' {
        Some(Symbol::ShiftRightAssign)
    } else {
        None
    }
}

/// The symbol that a lexeme of two or three characters spells.
pub open spec fn multi_symbol(s: Seq<char>) -> Option<Symbol> {
    if s.len() == 2 {
        double_symbol(s[0], s[1])
    } else if s.len() == 3 {
        triple_symbol(s[0], s[1], s[2])
    } else {
        None
    }
}

/// The longest symbol that `src` spells at `pos`, with its length: three
/// characters are tried before two, and two before one.
pub open spec fn symbol_at(src: Seq<char>, pos: int) -> Option<(Symbol, int)> {
    if 0 <= pos && pos + 3 <= src.len() && triple_symbol(src[pos], src[pos + 1], src[pos + 2])
        is Some {
        Some((triple_symbol(src[pos], src[pos + 1], src[pos + 2])->0, 3))
    } else if 0 <= pos && pos + 2 <= src.len() && double_symbol(src[pos], src[pos + 1]) is Some {
        Some((double_symbol(src[pos], src[pos + 1])->0, 2))
    } else if 0 <= pos && pos + 1 <= src.len() && single_symbol(src[pos]) is Some {
        Some((single_symbol(src[pos])->0, 1))
    } else {
        None
    }
}

/// The symbol that a lexeme of one, two or three characters spells.
pub open spec fn symbol_of(s: Seq<char>) -> Option<Symbol> {
    if s.len() == 1 {
        single_symbol(s[0])
    } else {
        multi_symbol(s)
    }
}

/// Longest first. The symbol scanned at an offset is spelled by the text
/// that it covers, and no longer text at that offset spells a symbol. Where
/// none is scanned, no text at that offset spells one.
pub proof fn lemma_symbol_is_longest(src: Seq<char>, pos: int)
    requires
        0 <= pos <= src.len(),
    ensures
        match symbol_at(src, pos) {
            Some((symbol, n)) => {
                &&& 1 <= n <= 3
                &&& pos + n <= src.len()
                &&& symbol_of(src.subrange(pos, pos + n)) == Some(symbol)
                &&& forall|m: int|
                    n < m && pos + m <= src.len() ==> symbol_of(
                        #[trigger] src.subrange(pos, pos + m),
                    ) is None
            },
            None => forall|m: int|
                0 <= m && pos + m <= src.len() ==> symbol_of(
                    #[trigger] src.subrange(pos, pos + m),
                ) is None,
        },
{
    assert forall|m: int| 0 <= m && pos + m <= src.len() implies {
        let s = #[trigger] src.subrange(pos, pos + m);
        &&& s.len() == m
        &&& m >= 1 ==> s[0] == src[pos]
        &&& m >= 2 ==> s[1] == src[pos + 1]
        &&& m >= 3 ==> s[2] == src[pos + 2]
    } by {}
    if pos + 1 <= src.len() {
        assert(src.subrange(pos, pos + 1).len() == 1);
    }
    if pos + 2 <= src.len() {
        assert(src.subrange(pos, pos + 2).len() == 2);
    }
    if pos + 3 <= src.len() {
        assert(src.subrange(pos, pos + 3).len() == 3);
    }
}

impl Bracket {
    /// The kind of bracket that `char` opens, if it opens one.
    pub fn from_opening_char(char: char) -> (r: Option<Self>)
        ensures
            r == opening_bracket(char),
    {
        if char == '{' {
            Some(Self::Curly)
        } else if char == '(' {
            Some(Self::Paren)
        } else if char == '[' {
            Some(Self::Square)
        } else {
            None
        }
    }

    /// The kind of bracket that `char` closes, if it closes one.
    pub fn from_closing_char(char: char) -> (r: Option<Self>)
        ensures
            r == closing_bracket(char),
    {
        if char == '}' {
            Some(Self::Curly)
        } else if char == ')' {
            Some(Self::Paren)
        } else if char == ']' {
            Some(Self::Square)
        } else {
            None
        }
    }
}

impl Symbol {
    /// Scans the longest symbol at the cursor and moves past it. Where no
    /// symbol begins, the cursor is left where it was.
    pub fn from_cursor(cursor: &mut StringCursor) -> (r: Option<Self>)
        ensures
            old(cursor)@.wf(),
            final(cursor)@.wf(),
            match symbol_at(old(cursor)@.src, old(cursor)@.idx) {
                Some((symbol, n)) => {
                    &&& r == Some(symbol)
                    &&& final(cursor)@ == old(cursor)@.at(old(cursor)@.idx + n)
                },
                None => {
                    &&& r is None
                    &&& final(cursor)@ == old(cursor)@
                },
            },
    {
        let first = match cursor.current() {
            Some(c) => c,
            None => {
                return None;
            },
        };
        if let Some(second) = cursor.next() {
            if let Some(third) = cursor.next() {
                if let Some(symbol) = Self::from_triple(first, second, third) {
                    cursor.advance();
                    return Some(symbol);
                }
            }
            if let Some(symbol) = Self::from_pair(first, second) {
                return Some(symbol);
            }
            cursor.last();
        }
        if let Some(symbol) = Self::from_char(first) {
            return Some(symbol);
        }
        cursor.last();
        None
    }

    /// Looks a lexeme of two or three characters up in the operator table.
    pub fn from_str(str: &str) -> (r: Option<Self>)
        ensures
            r == multi_symbol(str@),
    {
        let n = str.unicode_len();
        if n == 2 {
            Self::from_pair(str.get_char(0), str.get_char(1))
        } else if n == 3 {
            Self::from_triple(str.get_char(0), str.get_char(1), str.get_char(2))
        } else {
            None
        }
    }

    /// Looks a single character up in the operator and bracket table.
    pub fn from_char(char: char) -> (r: Option<Self>)
        ensures
            r == single_symbol(char),
    {
        if let Some(bracket) = Bracket::from_opening_char(char) {
            return Some(Self::BracketOpen(bracket));
        }
        if let Some(bracket) = Bracket::from_closing_char(char) {
            return Some(Self::BracketClose(bracket));
        }
        match char {
            '&' => Some(Self::AndBitwise),
            '=' => Some(Self::Assign),
            ':' => Some(Self::Colon),
            ',' => Some(Self::Comma),
            '/' => Some(Self::Div),
            '$' => Some(Self::Dollar),
            '.' => Some(Self::Dot),
            '>' => Some(Self::Greater),
            '<' => Some(Self::Less),
            '-' => Some(Self::Minus),
            '*' => Some(Self::Mult),
            '!' => Some(Self::Not),
            '|' => Some(Self::OrBitwise),
            '%' => Some(Self::Percent),
            '+' => Some(Self::Plus),
            '?' => Some(Self::Question),
            ';' => Some(Self::Semicolon),
            '^' => Some(Self::XorBitwise),
            _ => None,
        }
    }

    /// Looks two characters up in the operator table.
    pub fn from_pair(a: char, b: char) -> (r: Option<Self>)
        ensures
            r == double_symbol(a, b),
    {
        match (a, b) {
            ('&', '&') => Some(Self::And),
            ('&', '=') => Some(Self::AndAssign),
            ('-', '>') => Some(Self::Arrow),
            (':', '?') => Some(Self::ColonQuestion),
            ('-', '-') => Some(Self::Decrement),
            ('/', '=') => Some(Self::DivAssign),
            ('=', '=') => Some(Self::Equal),
            ('>', '=') => Some(Self::GreaterEqual),
            ('+', '+') => Some(Self::Increment),
            ('<', '=') => Some(Self::LessEqual),
            ('-', '=') => Some(Self::MinusAssign),
            ('*', '=') => Some(Self::MultAssign),
            ('!', '=') => Some(Self::NotEqual),
            ('|', '|') => Some(Self::Or),
            ('|', '=') => Some(Self::OrAssign),
            ('+', '=') => Some(Self::PlusAssign),
            ('<', '<') => Some(Self::ShiftLeft),
            ('>', '>') => Some(Self::ShiftRight),
            ('^', '^') => Some(Self::Xor),
            ('^', '=') => Some(Self::XorAssign),
            _ => None,
        }
    }

    /// Looks three characters up in the operator table.
    pub fn from_triple(a: char, b: char, c: char) -> (r: Option<Self>)
        ensures
            r == triple_symbol(a, b, c),
    {
        match (a, b, c) {
            ('<', '<', '=') => Some(Self::ShiftLeftAssign),
            ('>', '>', '=') => Some(Self::ShiftRightAssign),
            _ => None,
        }
    }
}

} // verus!
