use rk_syntax::cursor::StringCursor;
use rk_syntax::location::Location;
use rk_syntax::token::{Bracket, Keyword, Symbol, TokenError, TokenType};
use rk_syntax::tree::types::Type;
use rk_syntax::tree::{next_non_space, ParseError};

fn basic(name: &str, parameters: Vec<Type>) -> Type {
    Type::Basic { name: name.to_string(), parameters }
}

fn named(name: &str) -> Type {
    basic(name, vec![])
}

fn parse(text: &str) -> (Result<Type, ParseError>, Location, usize) {
    let mut cursor = StringCursor::from(text);
    let outcome = Type::from_cursor(&mut cursor);
    (outcome.t, outcome.loc, cursor.position())
}

fn unexpected(text: &str) -> (TokenType, String, String, Location, usize) {
    let (result, loc, at) = parse(text);
    match result {
        Err(ParseError::UnexpectedToken(token, expected)) => {
            assert_eq!(Location::new(token.src.start(), token.src.end()), loc);
            (token.value, token.src.as_str().to_string(), expected, loc, at)
        }
        other => panic!("expected an unexpected-token error, got {:?}", other),
    }
}

#[test]
fn bare_name_is_a_basic_type() {
    assert_eq!(parse("foo"), (Ok(named("foo")), Location::new(0, 3), 3));
}

#[test]
fn applied_name_takes_its_parameters() {
    assert_eq!(
        parse("foo(int, string)"),
        (
            Ok(basic("foo", vec![named("int"), named("string")])),
            Location::new(0, 16),
            16
        )
    );
}

#[test]
fn function_type_has_two_phases_and_a_return_type() {
    assert_eq!(
        parse("fun(int; string) bool"),
        (
            Ok(Type::Fun {
                meta_parameters: vec![named("int")],
                value_parameters: vec![named("string")],
                return_type: Box::new(named("bool")),
            }),
            Location::new(0, 21),
            21
        )
    );
}

#[test]
fn typeof_wraps_its_base_type() {
    assert_eq!(
        parse("typeof foo"),
        (Ok(Type::Meta { base_type: Box::new(named("foo")) }), Location::new(0, 10), 10)
    );
    assert_eq!(
        parse("typeof typeof foo"),
        (
            Ok(Type::Meta {
                base_type: Box::new(Type::Meta { base_type: Box::new(named("foo")) })
            }),
            Location::new(0, 17),
            17
        )
    );
}

#[test]
fn function_type_without_a_semicolon_has_value_parameters_only() {
    assert_eq!(
        parse("fun(a, b) c"),
        (
            Ok(Type::Fun {
                meta_parameters: vec![],
                value_parameters: vec![named("a"), named("b")],
                return_type: Box::new(named("c")),
            }),
            Location::new(0, 11),
            11
        )
    );
    assert_eq!(
        parse("fun(a, b;) c"),
        (
            Ok(Type::Fun {
                meta_parameters: vec![named("a"), named("b")],
                value_parameters: vec![],
                return_type: Box::new(named("c")),
            }),
            Location::new(0, 12),
            12
        )
    );
}

#[test]
fn function_type_may_lack_a_return_type() {
    assert_eq!(
        parse("fun() +"),
        (
            Ok(Type::Fun {
                meta_parameters: vec![],
                value_parameters: vec![],
                return_type: Box::new(Type::Empty),
            }),
            Location::new(0, 6),
            6
        )
    );
}

#[test]
fn empty_and_trailing_parameter_positions() {
    assert_eq!(parse("foo()"), (Ok(named("foo")), Location::new(0, 5), 5));
    assert_eq!(
        parse("foo(int,)"),
        (Ok(basic("foo", vec![named("int")])), Location::new(0, 9), 9)
    );
    assert_eq!(
        parse("foo( int , )"),
        (Ok(basic("foo", vec![named("int")])), Location::new(0, 12), 12)
    );
}

#[test]
fn nesting() {
    assert_eq!(
        parse("fun(fun(a) b; c(d, typeof e)) f(g)"),
        (
            Ok(Type::Fun {
                meta_parameters: vec![Type::Fun {
                    meta_parameters: vec![],
                    value_parameters: vec![named("a")],
                    return_type: Box::new(named("b")),
                }],
                value_parameters: vec![basic(
                    "c",
                    vec![named("d"), Type::Meta { base_type: Box::new(named("e")) }]
                )],
                return_type: Box::new(basic("f", vec![named("g")])),
            }),
            Location::new(0, 34),
            34
        )
    );
}

#[test]
fn trivia_is_skipped() {
    assert_eq!(
        parse("  foo /* c */ ( // x\n int\t)"),
        (Ok(basic("foo", vec![named("int")])), Location::new(2, 27), 27)
    );
    assert_eq!(parse("foo  "), (Ok(named("foo")), Location::new(0, 5), 5));
    assert_eq!(parse("foo  +"), (Ok(named("foo")), Location::new(0, 5), 5));
}

#[test]
fn names_keep_their_code_points() {
    assert_eq!(
        parse("\u{e9}t\u{e9}(\u{4eac})"),
        (
            Ok(basic("\u{e9}t\u{e9}", vec![named("\u{4eac}")])),
            Location::new(0, 6),
            6
        )
    );
}

#[test]
fn other_tokens_are_declined_unread() {
    assert_eq!(parse("+"), (Ok(Type::Empty), Location::new(0, 0), 0));
    assert_eq!(parse("  + x"), (Ok(Type::Empty), Location::new(2, 2), 2));
    assert_eq!(parse(")"), (Ok(Type::Empty), Location::new(0, 0), 0));
    assert_eq!(parse("class"), (Ok(Type::Empty), Location::new(0, 0), 0));
    assert_eq!(parse("12"), (Ok(Type::Empty), Location::new(0, 0), 0));
    assert_eq!(parse("\"s\""), (Ok(Type::Empty), Location::new(0, 0), 0));
    assert_eq!(
        parse("typeof +"),
        (Ok(Type::Meta { base_type: Box::new(Type::Empty) }), Location::new(0, 7), 7)
    );
}

#[test]
fn declining_leaves_the_same_next_token() {
    let text = " /* c */ == x";
    let mut fresh = StringCursor::from(text);
    let seen_from_start = next_non_space(&mut fresh);

    let mut cursor = StringCursor::from(text);
    let declined = Type::from_cursor(&mut cursor);
    assert_eq!(declined.t, Ok(Type::Empty));
    assert_eq!(declined.loc, Location::new(9, 9));
    assert_eq!(cursor.position(), 9);

    let again = Type::from_cursor(&mut cursor);
    assert_eq!(again.t, Ok(Type::Empty));
    assert_eq!(again.loc, Location::new(9, 9));
    assert_eq!(cursor.position(), 9);

    let seen_after = next_non_space(&mut cursor);
    assert_eq!(seen_after, seen_from_start);
    let token = seen_after.t.unwrap();
    assert_eq!(token.value, TokenType::Symbol(Symbol::Equal));
    assert_eq!(token.src.as_str(), "==");
    assert_eq!(seen_after.loc, Location::new(9, 11));
}

#[test]
fn next_non_space_skips_whitespace_and_comments() {
    let mut cursor = StringCursor::from(" \t// c\n/* d */fun");
    let found = next_non_space(&mut cursor);
    assert_eq!(found.loc, Location::new(14, 17));
    assert_eq!(found.t.unwrap().value, TokenType::Keyword(Keyword::Fun));
    assert_eq!(cursor.position(), 17);
    let end = next_non_space(&mut cursor);
    assert_eq!(end.loc, Location::new(17, 17));
    assert_eq!(end.t.unwrap().value, TokenType::Eof);
    let mut cursor = StringCursor::from("  /* open");
    let failed = next_non_space(&mut cursor);
    assert_eq!(failed.loc, Location::new(2, 9));
    assert_eq!(failed.t, Err(TokenError::UnclosedComment));
}

#[test]
fn end_of_input_where_a_type_is_due() {
    assert_eq!(
        unexpected(""),
        (TokenType::Eof, String::new(), "a type".to_string(), Location::new(0, 0), 0)
    );
    assert_eq!(
        unexpected("  // nothing"),
        (TokenType::Eof, String::new(), "a type".to_string(), Location::new(12, 12), 12)
    );
    assert_eq!(
        unexpected("typeof"),
        (TokenType::Eof, String::new(), "a type".to_string(), Location::new(6, 6), 6)
    );
    assert_eq!(
        unexpected("fun(a)"),
        (TokenType::Eof, String::new(), "a type".to_string(), Location::new(6, 6), 6)
    );
    assert_eq!(
        unexpected("foo(a,"),
        (TokenType::Eof, String::new(), "a type".to_string(), Location::new(6, 6), 6)
    );
}

#[test]
fn function_type_needs_its_parenthesis() {
    assert_eq!(
        unexpected("fun int"),
        (TokenType::Identifier, "int".to_string(), "`(`".to_string(), Location::new(4, 7), 7)
    );
    assert_eq!(
        unexpected("fun"),
        (TokenType::Eof, String::new(), "`(`".to_string(), Location::new(3, 3), 3)
    );
    assert_eq!(
        unexpected("fun[a]"),
        (
            TokenType::Symbol(Symbol::BracketOpen(Bracket::Square)),
            "[".to_string(),
            "`(`".to_string(),
            Location::new(3, 4),
            4
        )
    );
}

#[test]
fn parameter_list_cut_short() {
    assert_eq!(
        unexpected("foo("),
        (TokenType::Eof, String::new(), "a type or `)`".to_string(), Location::new(4, 4), 4)
    );
    assert_eq!(
        unexpected("foo(int"),
        (TokenType::Eof, String::new(), "`,`, `)`".to_string(), Location::new(7, 7), 7)
    );
    assert_eq!(
        unexpected("fun(int"),
        (TokenType::Eof, String::new(), "`,`, `;`, `)`".to_string(), Location::new(7, 7), 7)
    );
}

#[test]
fn wrong_token_after_a_parameter() {
    assert_eq!(
        unexpected("foo(int string)"),
        (
            TokenType::Identifier,
            "string".to_string(),
            "`,`, `)`".to_string(),
            Location::new(8, 14),
            14
        )
    );
    assert_eq!(
        unexpected("fun(int + b) c"),
        (
            TokenType::Symbol(Symbol::Plus),
            "+".to_string(),
            "`,`, `;`, `)`".to_string(),
            Location::new(8, 9),
            9
        )
    );
}

#[test]
fn semicolon_is_refused_in_one_phase() {
    assert_eq!(
        unexpected("foo(int; x)"),
        (
            TokenType::Symbol(Symbol::Semicolon),
            ";".to_string(),
            "`,`, `)`".to_string(),
            Location::new(7, 8),
            8
        )
    );
}

#[test]
fn second_semicolon_is_refused() {
    assert_eq!(
        unexpected("fun(a; b; c) d"),
        (
            TokenType::Symbol(Symbol::Semicolon),
            ";".to_string(),
            "`,`, `)`".to_string(),
            Location::new(8, 9),
            9
        )
    );
    assert_eq!(
        unexpected("fun(a; b + c) d"),
        (
            TokenType::Symbol(Symbol::Plus),
            "+".to_string(),
            "`,`, `)`".to_string(),
            Location::new(9, 10),
            10
        )
    );
}

#[test]
fn missing_parameter_in_the_middle() {
    assert_eq!(
        unexpected("foo(,)"),
        (
            TokenType::Symbol(Symbol::Comma),
            ",".to_string(),
            "a type or `,`".to_string(),
            Location::new(4, 5),
            5
        )
    );
    assert_eq!(
        unexpected("foo(a, 12)"),
        (
            TokenType::Number,
            "12".to_string(),
            "a type or `,`".to_string(),
            Location::new(7, 9),
            9
        )
    );
    assert_eq!(
        unexpected("fun(a;;) b"),
        (
            TokenType::Symbol(Symbol::Semicolon),
            ";".to_string(),
            "a type or `,`".to_string(),
            Location::new(6, 7),
            7
        )
    );
}

#[test]
fn scanner_failures_pass_through_with_their_span() {
    assert_eq!(
        parse("\"abc"),
        (Err(ParseError::Token(TokenError::UnclosedString)), Location::new(0, 4), 4)
    );
    assert_eq!(
        parse("foo(\"abc"),
        (Err(ParseError::Token(TokenError::UnclosedString)), Location::new(4, 8), 8)
    );
    assert_eq!(
        parse("foo(1.2.3)"),
        (Err(ParseError::Token(TokenError::MultiDottedNumber)), Location::new(4, 7), 7)
    );
    assert_eq!(
        parse("foo /* open"),
        (Err(ParseError::Token(TokenError::UnclosedComment)), Location::new(4, 11), 11)
    );
    assert_eq!(
        parse("foo(a #"),
        (Err(ParseError::Token(TokenError::UnknownChar('#'))), Location::new(6, 7), 7)
    );
    assert_eq!(
        parse("foo(#"),
        (Err(ParseError::Token(TokenError::UnknownChar('#'))), Location::new(4, 5), 5)
    );
    assert_eq!(
        parse("typeof fun(a) #"),
        (Err(ParseError::Token(TokenError::UnknownChar('#'))), Location::new(14, 15), 15)
    );
}

#[test]
fn failure_of_an_inner_type_is_the_failure_of_the_list() {
    assert_eq!(
        unexpected("foo(fun x)"),
        (TokenType::Identifier, "x".to_string(), "`(`".to_string(), Location::new(8, 9), 9)
    );
    assert_eq!(
        unexpected("fun(a(b c)) d"),
        (TokenType::Identifier, "c".to_string(), "`,`, `)`".to_string(), Location::new(8, 9), 9)
    );
}

#[test]
fn parsing_starts_at_the_cursor() {
    let mut cursor = StringCursor::from("a b(c) d");
    let first = Type::from_cursor(&mut cursor);
    assert_eq!(first.t, Ok(named("a")));
    assert_eq!(first.loc, Location::new(0, 2));
    let second = Type::from_cursor(&mut cursor);
    assert_eq!(second.t, Ok(basic("b", vec![named("c")])));
    assert_eq!(second.loc, Location::new(2, 6));
    let third = Type::from_cursor(&mut cursor);
    assert_eq!(third.t, Ok(named("d")));
    assert_eq!(third.loc, Location::new(7, 8));
    let end = Type::from_cursor(&mut cursor);
    assert!(matches!(end.t, Err(ParseError::UnexpectedToken(_, _))));
    assert_eq!(end.loc, Location::new(8, 8));
}

#[test]
fn token_errors_convert_into_parse_errors() {
    assert_eq!(
        ParseError::from(TokenError::UnknownChar('x')),
        ParseError::Token(TokenError::UnknownChar('x'))
    );
    let converted: ParseError = TokenError::UnclosedComment.into();
    assert_eq!(converted, ParseError::Token(TokenError::UnclosedComment));
}
