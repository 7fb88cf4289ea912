//! The keyword table.

use crate::text::same_text;
use vstd::prelude::*;

verus! {

/// A reserved word of the language.
#[derive(Debug, PartialEq, Eq, Clone, Copy, Structural)]
pub enum Keyword {
    As,
    Class,
    Defer,
    Else,
    Enum,
    For,
    Fun,
    If,
    In,
    Impl,
    Import,
    Let,
    Loop,
    Mut,
    Namespace,
    New,
    Object,
    Pub,
    This,
    ThisUpper,
    Trait,
    Type,
    Typeof,
    When,
    While,
}

/// The keyword that is spelled exactly `s`, if there is one. Spelling is
/// case-sensitive: `this` and `This` are two keywords.
pub open spec fn keyword_of(s: Seq<char>) -> Option<Keyword> {
    if s == "as"@ {
        Some(Keyword::As)
    } else if s == "class"@ {
        Some(Keyword::Class)
    } else if s == "defer"@ {
        Some(Keyword::Defer)
    } else if s == "else"@ {
        Some(Keyword::Else)
    } else if s == "enum"@ {
        Some(Keyword::Enum)
    } else if s == "for"@ {
        Some(Keyword::For)
    } else if s == "fun"@ {
        Some(Keyword::Fun)
    } else if s == "if"@ {
        Some(Keyword::If)
    } else if s == "in"@ {
        Some(Keyword::In)
    } else if s == "impl"@ {
        Some(Keyword::Impl)
    } else if s == "import"@ {
        Some(Keyword::Import)
    } else if s == "let"@ {
        Some(Keyword::Let)
    } else if s == "loop"@ {
        Some(Keyword::Loop)
    } else if s == "mut"@ {
        Some(Keyword::Mut)
    } else if s == "namespace"@ {
        Some(Keyword::Namespace)
    } else if s == "new"@ {
        Some(Keyword::New)
    } else if s == "object"@ {
        Some(Keyword::Object)
    } else if s == "pub"@ {
        Some(Keyword::Pub)
    } else if s == "this"@ {
        Some(Keyword::This)
    } else if s == "This"@ {
        Some(Keyword::ThisUpper)
    } else if s == "trait"@ {
        Some(Keyword::Trait)
    } else if s == "type"@ {
        Some(Keyword::Type)
    } else if s == "typeof"@ {
        Some(Keyword::Typeof)
    } else if s == "when"@ {
        Some(Keyword::When)
    } else if s == "while"@ {
        Some(Keyword::While)
    } else {
        None
    }
}

impl Keyword {
    /// Looks `string` up in the keyword table.
    pub fn from_str(string: &str) -> (r: Option<Self>)
        ensures
            r == keyword_of(string@),
    {
        if same_text(string, "as") {
            Some(Self::As)
        } else if same_text(string, "class") {
            Some(Self::Class)
        } else if same_text(string, "defer") {
            Some(Self::Defer)
        } else if same_text(string, "else") {
            Some(Self::Else)
        } else if same_text(string, "enum") {
            Some(Self::Enum)
        } else if same_text(string, "for") {
            Some(Self::For)
        } else if same_text(string, "fun") {
            Some(Self::Fun)
        } else if same_text(string, "if") {
            Some(Self::If)
        } else if same_text(string, "in") {
            Some(Self::In)
        } else if same_text(string, "impl") {
            Some(Self::Impl)
        } else if same_text(string, "import") {
            Some(Self::Import)
        } else if same_text(string, "let") {
            Some(Self::Let)
        } else if same_text(string, "loop") {
            Some(Self::Loop)
        } else if same_text(string, "mut") {
            Some(Self::Mut)
        } else if same_text(string, "namespace") {
            Some(Self::Namespace)
        } else if same_text(string, "new") {
            Some(Self::New)
        } else if same_text(string, "object") {
            Some(Self::Object)
        } else if same_text(string, "pub") {
            Some(Self::Pub)
        } else if same_text(string, "this") {
            Some(Self::This)
        } else if same_text(string, "This") {
            Some(Self::ThisUpper)
        } else if same_text(string, "trait") {
            Some(Self::Trait)
        } else if same_text(string, "type") {
            Some(Self::Type)
        } else if same_text(string, "typeof") {
            Some(Self::Typeof)
        } else if same_text(string, "when") {
            Some(Self::When)
        } else if same_text(string, "while") {
            Some(Self::While)
        } else {
            None
        }
    }
}

} // verus!
