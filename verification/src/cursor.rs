//! The scan cursor and the spans of text it hands out.

use crate::location::Locational;
use crate::text::{closer_end, lemma_closer_end, one_of, run_end, starts_with_at};
use crate::token::scan::scanned;
use crate::token::{Token, TokenError};
use std::sync::Arc;
use vstd::prelude::*;

verus! {

/// What a cursor is, as plain values: the buffer, the current offset and the
/// offset at which the text not yet folded begins.
pub struct CursorState {
    pub src: Seq<char>,
    pub idx: int,
    pub start: int,
}

impl CursorState {
    /// The fold start is not after the current offset, which is not after
    /// the end of the buffer.
    pub open spec fn wf(self) -> bool {
        0 <= self.start <= self.idx <= self.src.len()
    }

    /// The same cursor with its current offset at `idx`.
    pub open spec fn at(self, idx: int) -> CursorState {
        CursorState { src: self.src, idx, start: self.start }
    }

    /// The character under the cursor, if the buffer has not ended.
    pub open spec fn current(self) -> Option<char> {
        if 0 <= self.idx < self.src.len() {
            Some(self.src[self.idx])
        } else {
            None
        }
    }

    /// One code point forward, staying at the end of the buffer once there.
    pub open spec fn forward(self) -> CursorState {
        if self.idx < self.src.len() {
            self.at(self.idx + 1)
        } else {
            self
        }
    }

    /// One code point back, never before the fold start.
    pub open spec fn backward(self) -> CursorState {
        if self.idx > self.start {
            self.at(self.idx - 1)
        } else {
            self
        }
    }
}

/// What a span is, as plain values: the buffer and a half-open range in it.
pub struct Span {
    pub src: Seq<char>,
    pub start: int,
    pub end: int,
}

impl Span {
    pub open spec fn wf(self) -> bool {
        0 <= self.start <= self.end <= self.src.len()
    }

    /// The text that the span covers.
    pub open spec fn text(self) -> Seq<char> {
        self.src.subrange(self.start, self.end)
    }
}

/// A scan position over a shared, immutable source buffer.
#[derive(Debug, PartialEq, Eq)]
pub struct StringCursor {
    pub(crate) src: Arc<str>,
    pub(crate) len: usize,
    pub(crate) idx: usize,
    pub(crate) start: usize,
}

/// A range of a shared source buffer: the text of one token.
#[derive(Debug, PartialEq, Eq)]
pub struct SrcStr {
    pub(crate) src: Arc<str>,
    pub(crate) start_idx: usize,
    pub(crate) end_idx: usize,
}

/// `Arc::clone` on a shared buffer: the new handle refers to the same text.
#[verifier::external_body]
fn share(buf: &Arc<str>) -> (r: Arc<str>)
    ensures
        r == *buf,
{
    Arc::clone(buf)
}

/// `Arc::<str>::from` on a string slice: the buffer that is allocated holds a
/// copy of the slice.
#[verifier::external_body]
fn intern(text: &str) -> (r: Arc<str>)
    ensures
        (*r)@ == text@,
{
    Arc::from(text)
}

impl View for SrcStr {
    type V = Span;

    closed spec fn view(&self) -> Span {
        Span { src: (*self.src)@, start: self.start_idx as int, end: self.end_idx as int }
    }
}

impl Clone for SrcStr {
    /// Another handle on the same range of the same buffer.
    fn clone(&self) -> (r: Self)
        ensures
            r@ == self@,
    {
        proof {
            use_type_invariant(self);
        }
        SrcStr { src: share(&self.src), start_idx: self.start_idx, end_idx: self.end_idx }
    }
}

impl SrcStr {
    #[verifier::type_invariant]
    closed spec fn inv(&self) -> bool {
        self.start_idx <= self.end_idx <= (*self.src)@.len()
    }

    /// The text that the span covers.
    pub fn as_str(&self) -> (r: &str)
        ensures
            self@.wf(),
            r@ == self@.text(),
    {
        proof {
            use_type_invariant(self);
        }
        let whole: &str = &self.src;
        whole.substring_char(self.start_idx, self.end_idx)
    }

    /// The offset of the first code point of the span.
    pub fn start(&self) -> (r: usize)
        ensures
            self@.wf(),
            r == self@.start,
    {
        proof {
            use_type_invariant(self);
        }
        self.start_idx
    }

    /// The offset just past the last code point of the span.
    pub fn end(&self) -> (r: usize)
        ensures
            self@.wf(),
            r == self@.end,
    {
        proof {
            use_type_invariant(self);
        }
        self.end_idx
    }

    /// The whole buffer that the span lies in.
    pub fn source(&self) -> (r: &str)
        ensures
            self@.wf(),
            r@ == self@.src,
    {
        proof {
            use_type_invariant(self);
        }
        let whole: &str = &self.src;
        whole
    }
}

impl View for StringCursor {
    type V = CursorState;

    closed spec fn view(&self) -> CursorState {
        CursorState { src: (*self.src)@, idx: self.idx as int, start: self.start as int }
    }
}

impl Clone for StringCursor {
    /// Another cursor at the same place in the same buffer.
    fn clone(&self) -> (r: Self)
        ensures
            r@ == self@,
    {
        proof {
            use_type_invariant(self);
        }
        StringCursor { src: share(&self.src), len: self.len, idx: self.idx, start: self.start }
    }
}

impl StringCursor {
    #[verifier::type_invariant]
    closed spec fn inv(&self) -> bool {
        &&& self.len == (*self.src)@.len()
        &&& self.start <= self.idx <= self.len
    }

    /// A cursor at the beginning of a fresh copy of `src`.
    pub fn from(src: &str) -> (r: Self)
        ensures
            r@ == (CursorState { src: src@, idx: 0, start: 0 }),
    {
        let len = src.unicode_len();
        Self { src: intern(src), len, idx: 0, start: 0 }
    }

    /// The whole buffer.
    pub fn source(&self) -> (r: &str)
        ensures
            self@.wf(),
            r@ == self@.src,
    {
        proof {
            use_type_invariant(self);
        }
        let whole: &str = &self.src;
        whole
    }

    /// Scans one token from the current offset.
    pub fn next_token(&mut self) -> (r: Locational<Result<Token, TokenError>>)
        ensures
            scanned(old(self)@, final(self)@, r),
    {
        Token::from_cursor(self)
    }

    /// The text read since the last fold.
    pub fn pending(&self) -> (r: &str)
        ensures
            self@.wf(),
            r@ == self@.src.subrange(self@.start, self@.idx),
    {
        proof {
            use_type_invariant(self);
        }
        let whole: &str = &self.src;
        whole.substring_char(self.start, self.idx)
    }

    /// The number of code points in the buffer.
    pub fn len(&self) -> (r: usize)
        ensures
            self@.wf(),
            r == self@.src.len(),
    {
        proof {
            use_type_invariant(self);
        }
        self.len
    }

    /// The current offset.
    pub fn position(&self) -> (r: usize)
        ensures
            self@.wf(),
            r == self@.idx,
    {
        proof {
            use_type_invariant(self);
        }
        self.idx
    }

    /// The character under the cursor, or `None` at the end of the buffer.
    pub fn current(&self) -> (r: Option<char>)
        ensures
            self@.wf(),
            r == self@.current(),
    {
        proof {
            use_type_invariant(self);
        }
        if self.idx < self.len {
            let whole: &str = &self.src;
            Some(whole.get_char(self.idx))
        } else {
            None
        }
    }

    /// Moves one code point forward; at the end of the buffer nothing moves.
    pub fn advance(&mut self)
        ensures
            old(self)@.wf(),
            final(self)@.wf(),
            final(self)@ == old(self)@.forward(),
    {
        proof {
            use_type_invariant(&*self);
        }
        if self.idx < self.len {
            self.idx += 1;
        }
    }

    /// Moves one code point forward and reads the character found there.
    pub fn next(&mut self) -> (r: Option<char>)
        ensures
            old(self)@.wf(),
            final(self)@.wf(),
            final(self)@ == old(self)@.forward(),
            r == final(self)@.current(),
    {
        self.advance();
        self.current()
    }

    /// Moves one code point back, though never before the fold start, and
    /// reads the character found there.
    pub fn last(&mut self) -> (r: Option<char>)
        ensures
            old(self)@.wf(),
            final(self)@.wf(),
            final(self)@ == old(self)@.backward(),
            r == final(self)@.current(),
    {
        proof {
            use_type_invariant(&*self);
        }
        if self.idx > self.start {
            self.idx -= 1;
        }
        self.current()
    }

    /// Returns to the fold start, giving up what was read since the last fold.
    pub fn rollback(&mut self)
        ensures
            old(self)@.wf(),
            final(self)@.wf(),
            final(self)@ == old(self)@.at(old(self)@.start),
    {
        proof {
            use_type_invariant(&*self);
        }
        self.idx = self.start;
    }

    /// Returns to the offset `pos`, recorded earlier, and makes it the fold
    /// start. An offset past the end of the buffer is refused and nothing
    /// moves.
    pub fn restore(&mut self, pos: usize) -> (r: bool)
        ensures
            old(self)@.wf(),
            final(self)@.wf(),
            r == (pos <= old(self)@.src.len()),
            r ==> final(self)@ == (CursorState {
                src: old(self)@.src,
                idx: pos as int,
                start: pos as int,
            }),
            !r ==> final(self)@ == old(self)@,
    {
        proof {
            use_type_invariant(&*self);
        }
        if pos > self.len {
            false
        } else if pos < self.idx {
            self.start = pos;
            self.idx = pos;
            true
        } else {
            self.idx = pos;
            self.start = pos;
            true
        }
    }

    /// Hands out the text read since the last fold as a span and begins the
    /// next one at the current offset.
    pub fn fold(&mut self) -> (r: SrcStr)
        ensures
            old(self)@.wf(),
            final(self)@.wf(),
            final(self)@ == (CursorState {
                src: old(self)@.src,
                idx: old(self)@.idx,
                start: old(self)@.idx,
            }),
            r@.wf(),
            r@ == (Span { src: old(self)@.src, start: old(self)@.start, end: old(self)@.idx }),
    {
        proof {
            use_type_invariant(&*self);
        }
        let start_idx = self.start;
        self.start = self.idx;
        SrcStr { src: share(&self.src), start_idx, end_idx: self.idx }
    }

    /// Tells whether `str` occurs at the current offset and, if so, moves
    /// past it.
    pub fn is(&mut self, str: &str) -> (r: bool)
        ensures
            old(self)@.wf(),
            final(self)@.wf(),
            r == starts_with_at(old(self)@.src, old(self)@.idx, str@),
            final(self)@ == old(self)@.at(
                if r {
                    old(self)@.idx + str@.len()
                } else {
                    old(self)@.idx
                },
            ),
    {
        proof {
            use_type_invariant(&*self);
        }
        let n = str.unicode_len();
        if n > self.len - self.idx {
            return false;
        }
        let whole: &str = &self.src;
        let mut i: usize = 0;
        while i < n
            invariant
                n == str@.len(),
                whole@ == self@.src,
                self@ == old(self)@,
                self@.wf(),
                self.idx + n <= self.len,
                self.len == whole@.len(),
                i <= n,
                whole@.subrange(self.idx as int, self.idx + i) == str@.subrange(0, i as int),
            decreases n - i,
        {
            if whole.get_char(self.idx + i) != str.get_char(i) {
                proof {
                    let got = whole@.subrange(self.idx as int, self.idx + n);
                    assert(got[i as int] == whole@[self.idx + i]);
                }
                return false;
            }
            proof {
                assert(whole@.subrange(self.idx as int, self.idx + i + 1) =~= whole@.subrange(
                    self.idx as int,
                    self.idx + i,
                ).push(whole@[self.idx + i]));
                assert(str@.subrange(0, i + 1) =~= str@.subrange(0, i as int).push(str@[i as int]));
            }
            i += 1;
        }
        proof {
            assert(str@.subrange(0, n as int) =~= str@);
        }
        self.idx += n;
        true
    }

    /// Applies `f` to the character under the cursor and moves past it if `f`
    /// gave a value. At the end of the buffer `f` is not called.
    pub fn expect_value<T, F>(&mut self, f: F) -> (r: Option<T>) where
        T: Sized + Copy,
        F: Fn(char) -> Option<T> + Sized + Copy,

        requires
            old(self)@.current() matches Some(c) ==> f.requires((c,)),
        ensures
            old(self)@.wf(),
            final(self)@.wf(),
            match old(self)@.current() {
                Some(c) => f.ensures((c,), r),
                None => r is None,
            },
            final(self)@ == (if r is Some {
                old(self)@.forward()
            } else {
                old(self)@
            }),
    {
        match self.current() {
            Some(c) => {
                let val = f(c);
                if val.is_some() {
                    self.advance();
                }
                val
            },
            None => None,
        }
    }

    /// Moves past the character under the cursor if `func` accepts it. At
    /// the end of the buffer `func` is not called and nothing is accepted.
    pub fn expect_func<F>(&mut self, func: F) -> (r: bool) where
        F: Fn(char) -> bool + Sized + Copy,

        requires
            old(self)@.current() matches Some(c) ==> func.requires((c,)),
        ensures
            old(self)@.wf(),
            final(self)@.wf(),
            match old(self)@.current() {
                Some(c) => func.ensures((c,), r),
                None => !r,
            },
            final(self)@ == (if r {
                old(self)@.forward()
            } else {
                old(self)@
            }),
    {
        match self.current() {
            Some(c) => {
                if func(c) {
                    self.advance();
                    true
                } else {
                    false
                }
            },
            None => false,
        }
    }

    /// Moves past the character under the cursor if it occurs in `chars`.
    pub fn expect_any(&mut self, chars: &str) -> (r: bool)
        ensures
            old(self)@.wf(),
            final(self)@.wf(),
            r == (old(self)@.current() matches Some(c) && chars@.contains(c)),
            final(self)@ == (if r {
                old(self)@.forward()
            } else {
                old(self)@
            }),
    {
        match self.current() {
            Some(c) => {
                let n = chars.unicode_len();
                let mut i: usize = 0;
                while i < n
                    invariant
                        n == chars@.len(),
                        i <= n,
                        self@ == old(self)@,
                        self@.current() == Some(c),
                        forall|j: int| 0 <= j < i ==> chars@[j] != c,
                    decreases n - i,
                {
                    if chars.get_char(i) == c {
                        assert(chars@[i as int] == c);
                        self.advance();
                        return true;
                    }
                    i += 1;
                }
                false
            },
            None => false,
        }
    }

    /// Reads forward to the first occurrence of `str` and moves past it. With
    /// `allow_escapes`, a backslash takes the next character along unread.
    /// If the buffer ends first, the cursor stays at its end and the result is
    /// `None`.
    pub fn consume_until(&mut self, str: &str, allow_escapes: bool) -> (r: Option<()>)
        ensures
            old(self)@.wf(),
            final(self)@.wf(),
            r is Some == closer_end(old(self)@.src, old(self)@.idx, str@, allow_escapes) is Some,
            final(self)@ == old(self)@.at(
                match closer_end(old(self)@.src, old(self)@.idx, str@, allow_escapes) {
                    Some(end) => end,
                    None => old(self)@.src.len() as int,
                },
            ),
    {
        proof {
            use_type_invariant(&*self);
        }
        loop
            invariant
                old(self)@.wf(),
                self@.wf(),
                self@ == old(self)@.at(self@.idx),
                old(self)@.idx <= self@.idx,
                closer_end(self@.src, self@.idx, str@, allow_escapes) == closer_end(
                    old(self)@.src,
                    old(self)@.idx,
                    str@,
                    allow_escapes,
                ),
            decreases self@.src.len() - self@.idx,
        {
            proof {
                lemma_closer_end(self@.src, self@.idx, str@, allow_escapes);
            }
            if self.is(str) {
                return Some(());
            }
            match self.current() {
                None => {
                    return None;
                },
                Some(c) => {
                    self.advance();
                    if allow_escapes && c == '\\' {
                        if self.current().is_none() {
                            return None;
                        }
                        self.advance();
                    }
                },
            }
        }
    }

    /// Moves past the longest run of characters that `func` accepts.
    pub fn consume_func<F>(&mut self, func: F) where F: Fn(char) -> bool + Sized + Copy
        requires
            forall|i: int|
                old(self)@.idx <= i < old(self)@.src.len() ==> func.requires(
                    (#[trigger] old(self)@.src[i],),
                ),
        ensures
            old(self)@.wf(),
            final(self)@.wf(),
            final(self)@ == old(self)@.at(final(self)@.idx),
            old(self)@.idx <= final(self)@.idx,
            forall|i: int|
                old(self)@.idx <= i < final(self)@.idx ==> func.ensures(
                    (#[trigger] old(self)@.src[i],),
                    true,
                ),
            final(self)@.idx < old(self)@.src.len() ==> func.ensures(
                (old(self)@.src[final(self)@.idx],),
                false,
            ),
    {
        proof {
            use_type_invariant(&*self);
        }
        loop
            invariant
                old(self)@.wf(),
                self@.wf(),
                self@ == old(self)@.at(self@.idx),
                old(self)@.idx <= self@.idx,
                forall|i: int|
                    old(self)@.idx <= i < old(self)@.src.len() ==> func.requires(
                        (#[trigger] old(self)@.src[i],),
                    ),
                forall|i: int|
                    old(self)@.idx <= i < self@.idx ==> func.ensures(
                        (#[trigger] old(self)@.src[i],),
                        true,
                    ),
            decreases self@.src.len() - self@.idx,
        {
            if !self.expect_func(func) {
                return ;
            }
        }
    }

    /// Moves past the longest run of characters that occur in `chars`.
    pub fn consume_any(&mut self, chars: &str)
        ensures
            old(self)@.wf(),
            final(self)@.wf(),
            final(self)@ == old(self)@.at(
                run_end(old(self)@.src, old(self)@.idx, one_of(chars@)),
            ),
    {
        proof {
            use_type_invariant(&*self);
        }
        loop
            invariant
                old(self)@.wf(),
                self@.wf(),
                self@ == old(self)@.at(self@.idx),
                old(self)@.idx <= self@.idx,
                run_end(self@.src, self@.idx, one_of(chars@)) == run_end(
                    old(self)@.src,
                    old(self)@.idx,
                    one_of(chars@),
                ),
            decreases self@.src.len() - self@.idx,
        {
            if !self.expect_any(chars) {
                return ;
            }
        }
    }
}

} // verus!
