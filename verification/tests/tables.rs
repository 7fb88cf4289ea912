use rk_syntax::cursor::StringCursor;
use rk_syntax::token::classes::{
    digit, ident_cont, ident_start, lead, quote, spaced_digit, Lead,
};
use rk_syntax::token::{Bracket, Keyword, Symbol};

#[test]
fn every_keyword_is_found_by_its_spelling() {
    let table = [
        ("as", Keyword::As),
        ("class", Keyword::Class),
        ("defer", Keyword::Defer),
        ("else", Keyword::Else),
        ("enum", Keyword::Enum),
        ("for", Keyword::For),
        ("fun", Keyword::Fun),
        ("if", Keyword::If),
        ("in", Keyword::In),
        ("impl", Keyword::Impl),
        ("import", Keyword::Import),
        ("let", Keyword::Let),
        ("loop", Keyword::Loop),
        ("mut", Keyword::Mut),
        ("namespace", Keyword::Namespace),
        ("new", Keyword::New),
        ("object", Keyword::Object),
        ("pub", Keyword::Pub),
        ("this", Keyword::This),
        ("This", Keyword::ThisUpper),
        ("trait", Keyword::Trait),
        ("type", Keyword::Type),
        ("typeof", Keyword::Typeof),
        ("when", Keyword::When),
        ("while", Keyword::While),
    ];
    for (spelling, keyword) in table {
        assert_eq!(Keyword::from_str(spelling), Some(keyword));
    }
}

#[test]
fn other_words_are_no_keywords() {
    for word in ["", "a", "As", "AS", "clas", "classes", "type of", "func", "Typeof", " if", "if "] {
        assert_eq!(Keyword::from_str(word), None);
    }
}

#[test]
fn every_single_character_symbol() {
    let table = [
        ('&', Symbol::AndBitwise),
        ('=', Symbol::Assign),
        ('{', Symbol::BracketOpen(Bracket::Curly)),
        ('(', Symbol::BracketOpen(Bracket::Paren)),
        ('[', Symbol::BracketOpen(Bracket::Square)),
        ('}', Symbol::BracketClose(Bracket::Curly)),
        (')', Symbol::BracketClose(Bracket::Paren)),
        (']', Symbol::BracketClose(Bracket::Square)),
        (':', Symbol::Colon),
        (',', Symbol::Comma),
        ('/', Symbol::Div),
        ('$', Symbol::Dollar),
        ('.', Symbol::Dot),
        ('>', Symbol::Greater),
        ('<', Symbol::Less),
        ('-', Symbol::Minus),
        ('*', Symbol::Mult),
        ('!', Symbol::Not),
        ('|', Symbol::OrBitwise),
        ('%', Symbol::Percent),
        ('+', Symbol::Plus),
        ('?', Symbol::Question),
        (';', Symbol::Semicolon),
        ('^', Symbol::XorBitwise),
    ];
    for (c, symbol) in table {
        assert_eq!(Symbol::from_char(c), Some(symbol));
    }
    for c in ['a', '0', ' ', '#', '@', '~', '`', '\\', '"', '\'', '_', '\u{e9}'] {
        assert_eq!(Symbol::from_char(c), None);
    }
}

#[test]
fn every_multi_character_symbol() {
    let table = [
        ("&&", Symbol::And),
        ("&=", Symbol::AndAssign),
        ("->", Symbol::Arrow),
        (":?", Symbol::ColonQuestion),
        ("--", Symbol::Decrement),
        ("/=", Symbol::DivAssign),
        ("==", Symbol::Equal),
        (">=", Symbol::GreaterEqual),
        ("++", Symbol::Increment),
        ("<=", Symbol::LessEqual),
        ("-=", Symbol::MinusAssign),
        ("*=", Symbol::MultAssign),
        ("!=", Symbol::NotEqual),
        ("||", Symbol::Or),
        ("|=", Symbol::OrAssign),
        ("+=", Symbol::PlusAssign),
        ("<<", Symbol::ShiftLeft),
        ("<<=", Symbol::ShiftLeftAssign),
        (">>", Symbol::ShiftRight),
        (">>=", Symbol::ShiftRightAssign),
        ("^^", Symbol::Xor),
        ("^=", Symbol::XorAssign),
    ];
    for (lexeme, symbol) in table {
        assert_eq!(Symbol::from_str(lexeme), Some(symbol));
        assert_eq!(Symbol::from_cursor(&mut StringCursor::from(lexeme)), Some(symbol));
    }
    for lexeme in ["", "=", "=>", "<>", "<<<", "===", "<<==", "%=", "**", "ab"] {
        assert_eq!(Symbol::from_str(lexeme), None);
    }
    assert_eq!(Symbol::from_pair('<', '<'), Some(Symbol::ShiftLeft));
    assert_eq!(Symbol::from_pair('<', '>'), None);
    assert_eq!(Symbol::from_triple('<', '<', '='), Some(Symbol::ShiftLeftAssign));
    assert_eq!(Symbol::from_triple('<', '<', '<'), None);
}

#[test]
fn symbol_from_cursor_takes_the_longest_and_rolls_back_on_none() {
    let mut cursor = StringCursor::from(">>=>>>x");
    assert_eq!(Symbol::from_cursor(&mut cursor), Some(Symbol::ShiftRightAssign));
    assert_eq!(cursor.position(), 3);
    assert_eq!(Symbol::from_cursor(&mut cursor), Some(Symbol::ShiftRight));
    assert_eq!(cursor.position(), 5);
    assert_eq!(Symbol::from_cursor(&mut cursor), Some(Symbol::Greater));
    assert_eq!(cursor.position(), 6);
    assert_eq!(Symbol::from_cursor(&mut cursor), None);
    assert_eq!(cursor.position(), 6);
    cursor.advance();
    assert_eq!(Symbol::from_cursor(&mut cursor), None);
    assert_eq!(cursor.position(), 7);
    let mut cursor = StringCursor::from("a==");
    assert_eq!(Symbol::from_cursor(&mut cursor), None);
    assert_eq!(cursor.position(), 0);
    let mut cursor = StringCursor::from("=");
    assert_eq!(Symbol::from_cursor(&mut cursor), Some(Symbol::Assign));
    assert_eq!(cursor.position(), 1);
    let mut cursor = StringCursor::from("=a");
    assert_eq!(Symbol::from_cursor(&mut cursor), Some(Symbol::Assign));
    assert_eq!(cursor.position(), 1);
    let mut cursor = StringCursor::from("#=");
    assert_eq!(Symbol::from_cursor(&mut cursor), None);
    assert_eq!(cursor.position(), 0);
}

#[test]
fn brackets_by_opening_and_closing_character() {
    assert_eq!(Bracket::from_opening_char('{'), Some(Bracket::Curly));
    assert_eq!(Bracket::from_opening_char('('), Some(Bracket::Paren));
    assert_eq!(Bracket::from_opening_char('['), Some(Bracket::Square));
    assert_eq!(Bracket::from_closing_char('}'), Some(Bracket::Curly));
    assert_eq!(Bracket::from_closing_char(')'), Some(Bracket::Paren));
    assert_eq!(Bracket::from_closing_char(']'), Some(Bracket::Square));
    for c in ['<', '>', 'x', ' '] {
        assert_eq!(Bracket::from_opening_char(c), None);
        assert_eq!(Bracket::from_closing_char(c), None);
    }
    assert_eq!(Bracket::from_opening_char(')'), None);
    assert_eq!(Bracket::from_closing_char('('), None);
}

#[test]
fn character_classes() {
    assert!(digit('0') && digit('9') && !digit('a') && !digit('_') && !digit('\u{663}'));
    assert!(spaced_digit('5') && spaced_digit('_') && !spaced_digit('.'));
    assert!(ident_start('a') && ident_start('Z') && ident_start('_') && ident_start('\u{e9}'));
    assert!(!ident_start('1') && !ident_start('-') && !ident_start(' '));
    assert!(ident_cont('a') && ident_cont('1') && ident_cont('_') && ident_cont('\u{663}'));
    assert!(!ident_cont('-') && !ident_cont('$') && !ident_cont(' '));
    assert!(quote('"') && quote('\'') && !quote('`'));
}

#[test]
fn lead_decides_by_priority() {
    assert_eq!(lead(' ', None, true, false), Lead::Whitespace);
    assert_eq!(lead('/', Some('/'), true, true), Lead::Whitespace);
    assert_eq!(lead('/', Some('/'), false, false), Lead::LineComment);
    assert_eq!(lead('/', Some('*'), false, true), Lead::BlockComment);
    assert_eq!(lead('/', Some('='), false, false), Lead::Other);
    assert_eq!(lead('/', None, false, false), Lead::Other);
    assert_eq!(lead('*', Some('/'), false, false), Lead::Other);
    assert_eq!(lead('x', Some('/'), false, true), Lead::Word);
    assert_eq!(lead('"', None, false, true), Lead::Word);
    assert_eq!(lead('"', Some('a'), false, false), Lead::String);
    assert_eq!(lead('\'', None, false, false), Lead::String);
    assert_eq!(lead('7', Some('.'), false, false), Lead::Number);
    assert_eq!(lead('7', None, false, true), Lead::Word);
    assert_eq!(lead('=', Some('='), false, false), Lead::Other);
    assert_eq!(lead('#', None, false, false), Lead::Other);
}
