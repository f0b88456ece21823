//! Byte-offset spans and values that carry one.

use vstd::prelude::*;
use vstd::std_specs::convert::FromSpecImpl;

verus! {

/// A region of the source text: the byte offset where it starts and its
/// length in bytes.
#[derive(Clone, Copy, Debug, PartialEq, Eq, PartialOrd, Ord, Hash)]
pub struct SourceSpan {
    pub offset: usize,
    pub length: usize,
}

impl SourceSpan {
    /// The span of `length` bytes that starts at `offset`.
    pub fn new(offset: usize, length: usize) -> (span: Self)
        ensures
            span == (SourceSpan { offset, length }),
    {
        SourceSpan { offset, length }
    }
}

impl From<(usize, usize)> for SourceSpan {
    fn from(value: (usize, usize)) -> (span: Self) {
        SourceSpan { offset: value.0, length: value.1 }
    }
}

impl FromSpecImpl<(usize, usize)> for SourceSpan {
    open spec fn obeys_from_spec() -> bool {
        true
    }

    open spec fn from_spec(value: (usize, usize)) -> Self {
        SourceSpan { offset: value.0, length: value.1 }
    }
}

/// A value together with the byte offsets where it starts (inclusive) and
/// ends (exclusive) in the source text.
#[derive(Clone, Debug, PartialEq, PartialOrd)]
pub struct Spanned<T>(pub usize, pub T, pub usize);

impl<T> Spanned<T> {
    /// A span is well formed when it does not end before it starts.
    pub open spec fn well_formed(&self) -> bool {
        self.0 <= self.2
    }

    /// The same span around the value that `map_fn` makes of the payload.
    pub fn map<R, F: FnOnce(T) -> R>(self, map_fn: F) -> (mapped: Spanned<R>)
        requires
            map_fn.requires((self.1,)),
        ensures
            mapped.0 == self.0,
            mapped.2 == self.2,
            map_fn.ensures((self.1,), mapped.1),
            mapped.well_formed() == self.well_formed(),
    {
        Spanned(self.0, map_fn(self.1), self.2)
    }
}

impl<T> From<(usize, T, usize)> for Spanned<T> {
    fn from(value: (usize, T, usize)) -> (spanned: Self) {
        Spanned(value.0, value.1, value.2)
    }
}

impl<T> FromSpecImpl<(usize, T, usize)> for Spanned<T> {
    open spec fn obeys_from_spec() -> bool {
        true
    }

    open spec fn from_spec(value: (usize, T, usize)) -> Self {
        Spanned(value.0, value.1, value.2)
    }
}

impl From<(usize, usize)> for Spanned<()> {
    fn from(value: (usize, usize)) -> (spanned: Self) {
        Spanned(value.0, (), value.1)
    }
}

impl FromSpecImpl<(usize, usize)> for Spanned<()> {
    open spec fn obeys_from_spec() -> bool {
        true
    }

    open spec fn from_spec(value: (usize, usize)) -> Self {
        Spanned(value.0, (), value.1)
    }
}

} // verus!
