use rk_syntax::location::{Location, Locational};
use rk_syntax::token::TokenError;
use rk_syntax::tree::ParseError;
use std::ops::ControlFlow;

#[test]
fn location_holds_its_ends() {
    let loc = Location::new(3, 8);
    assert_eq!(loc.start, 3);
    assert_eq!(loc.end, 8);
    assert_eq!(loc, Location { start: 3, end: 8 });
}

#[test]
fn located_values_keep_span_and_value() {
    let a = Locational::from_loc(Location::new(1, 2), 'x');
    let b = Locational::from(1, 2, 'x');
    assert_eq!(a, b);
    assert_eq!(*a.get(), 'x');
    assert_eq!(b.loc, Location::new(1, 2));
}

#[test]
fn ok_and_err_convert_the_value() {
    let ok: Locational<Result<u64, ()>> = Locational::from(2, 5, 7u8).ok();
    assert_eq!(ok, Locational::from(2, 5, Ok(7u64)));
    let err: Locational<Result<(), ParseError>> =
        Locational::from(2, 5, TokenError::UnclosedString).err();
    assert_eq!(
        err,
        Locational::from(2, 5, Err(ParseError::Token(TokenError::UnclosedString)))
    );
}

#[test]
fn branch_splits_success_from_failure() {
    let ok: Locational<Result<u8, char>> = Locational::from(0, 1, Ok(9));
    assert_eq!(ok.branch(), ControlFlow::Continue(Locational::from(0, 1, 9)));
    let err: Locational<Result<u8, char>> = Locational::from(4, 6, Err('e'));
    assert_eq!(err.branch(), ControlFlow::Break(Locational::from(4, 6, 'e')));
    let back: Locational<Result<u8, char>> = Locational::from_output(Locational::from(0, 1, 9));
    assert_eq!(back, Locational::from(0, 1, Ok(9)));
}

#[test]
fn from_residual_converts_the_error_and_keeps_the_span() {
    let raised: Locational<Result<u8, ParseError>> =
        Locational::from_residual(Locational::from(3, 4, TokenError::UnknownChar('#')));
    assert_eq!(
        raised,
        Locational::from(3, 4, Err(ParseError::Token(TokenError::UnknownChar('#'))))
    );
}

#[test]
fn and_then_keeps_the_span_of_the_step_that_ran() {
    let first: Locational<Result<u8, TokenError>> = Locational::from(0, 2, Ok(20));
    let chained: Locational<Result<u16, ParseError>> =
        first.and_then(|found| Locational::from(found.loc.end, 9, Ok(found.t as u16 + 1)));
    assert_eq!(chained, Locational::from(2, 9, Ok(21)));
}

#[test]
fn and_then_stops_at_the_first_failure() {
    let first: Locational<Result<u8, TokenError>> =
        Locational::from(1, 3, Err(TokenError::MultiDottedNumber));
    let mut ran = false;
    let chained: Locational<Result<u16, ParseError>> = first.and_then(|found| {
        ran = true;
        Locational::from(0, 9, Ok(found.t as u16))
    });
    assert!(!ran);
    assert_eq!(
        chained,
        Locational::from(1, 3, Err(ParseError::Token(TokenError::MultiDottedNumber)))
    );
    let failing_step: Locational<Result<u16, ParseError>> =
        Locational::<Result<u8, TokenError>>::from(0, 2, Ok(1)).and_then(|_| {
            Locational::from(5, 6, Err(ParseError::Token(TokenError::UnclosedComment)))
        });
    assert_eq!(
        failing_step,
        Locational::from(5, 6, Err(ParseError::Token(TokenError::UnclosedComment)))
    );
}
