//! Spans and located outcomes.

use std::ops::ControlFlow;
use vstd::prelude::*;
use vstd::std_specs::convert::FromSpec;
use vstd::std_specs::convert::IntoSpec;

verus! {

/// A half-open range `[start, end)` of offsets into a source buffer.
#[derive(Debug, PartialEq, Eq, Clone, Copy, Structural)]
pub struct Location {
    pub start: usize,
    pub end: usize,
}

/// A value paired with the range of source text it was derived from.
#[derive(Debug, PartialEq, Eq, Clone)]
pub struct Locational<T> {
    pub loc: Location,
    pub t: T,
}

impl Location {
    /// The range from `start` to `end`.
    pub fn new(start: usize, end: usize) -> (r: Self)
        ensures
            r.start == start,
            r.end == end,
    {
        Self { start, end }
    }

    /// The range is ordered and lies inside a buffer of `len` code points.
    pub open spec fn within(self, len: nat) -> bool {
        self.start <= self.end && self.end <= len
    }
}

impl<T> Locational<T> {
    /// The value `t`, located at `loc`.
    pub fn from_loc(loc: Location, t: T) -> (r: Self)
        ensures
            r.loc == loc,
            r.t == t,
    {
        Self { loc, t }
    }

    /// The value `t`, located from `start` to `end`.
    pub fn from(start: usize, end: usize, t: T) -> (r: Self)
        ensures
            r.loc.start == start,
            r.loc.end == end,
            r.t == t,
    {
        Self::from_loc(Location::new(start, end), t)
    }

    /// The located value itself.
    pub fn get(&self) -> (r: &T)
        ensures
            *r == self.t,
    {
        &self.t
    }

    /// Turns a located value into a located success, keeping the span and
    /// converting the value into the success type.
    pub fn ok<RT, RE>(self) -> (r: Locational<Result<RT, RE>>) where T: Into<RT>
        ensures
            r.loc == self.loc,
            r.t is Ok,
            T::obeys_into_spec() ==> r.t == Ok::<RT, RE>(self.t.into_spec()),
    {
        let Locational { loc, t } = self;
        Locational::from_loc(loc, Ok(t.into()))
    }

    /// Turns a located value into a located failure, keeping the span and
    /// converting the value into the error type.
    pub fn err<RT, RE>(self) -> (r: Locational<Result<RT, RE>>) where T: Into<RE>
        ensures
            r.loc == self.loc,
            r.t is Err,
            T::obeys_into_spec() ==> r.t == Err::<RT, RE>(self.t.into_spec()),
    {
        let Locational { loc, t } = self;
        Locational::from_loc(loc, Err(t.into()))
    }
}

impl<T, E> Locational<Result<T, E>> {
    /// Wraps a located value as a located success with the same span.
    pub fn from_output(output: Locational<T>) -> (r: Self)
        ensures
            r.loc == output.loc,
            r.t == Ok::<T, E>(output.t),
    {
        Locational::from_loc(output.loc, Ok(output.t))
    }

    /// Splits a located outcome: a success continues with its value, a
    /// failure breaks with its error; the span goes with either.
    pub fn branch(self) -> (r: ControlFlow<Locational<E>, Locational<T>>)
        ensures
            match self.t {
                Ok(val) => r == ControlFlow::<Locational<E>, Locational<T>>::Continue(
                    Locational { loc: self.loc, t: val },
                ),
                Err(err) => r == ControlFlow::<Locational<E>, Locational<T>>::Break(
                    Locational { loc: self.loc, t: err },
                ),
            },
    {
        let Locational { loc, t } = self;
        match t {
            Ok(val) => ControlFlow::Continue(Locational { loc, t: val }),
            Err(err) => ControlFlow::Break(Locational { loc, t: err }),
        }
    }

    /// Re-raises a located error of another family: the span is kept and the
    /// error is converted into this outcome's error type.
    pub fn from_residual<E1>(residual: Locational<E1>) -> (r: Self) where E: From<E1>
        ensures
            r.loc == residual.loc,
            r.t is Err,
            E::obeys_from_spec() ==> r.t == Err::<T, E>(E::from_spec(residual.t)),
    {
        residual.err()
    }

    /// Short-circuiting composition. On success the next step runs on the
    /// located value and its outcome, with that step's own span, is the
    /// result. On failure the step is skipped: the span of the failure is
    /// kept and its error is converted.
    pub fn and_then<U, E2, F>(self, step: F) -> (r: Locational<Result<U, E2>>) where
        E2: From<E>,
        F: FnOnce(Locational<T>) -> Locational<Result<U, E2>>,

        requires
            self.t matches Ok(val) ==> step.requires((Locational { loc: self.loc, t: val },)),
        ensures
            match self.t {
                Ok(val) => step.ensures((Locational { loc: self.loc, t: val },), r),
                Err(err) => {
                    &&& r.loc == self.loc
                    &&& r.t is Err
                    &&& E2::obeys_from_spec() ==> r.t == Err::<U, E2>(E2::from_spec(err))
                },
            },
    {
        match self.branch() {
            ControlFlow::Continue(output) => step(output),
            ControlFlow::Break(residual) => Locational::from_residual(residual),
        }
    }
}

} // verus!
