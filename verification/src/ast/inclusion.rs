use crate::spanned::Spanned;
use vstd::prelude::*;

verus! {

/// The inclusion of another file: the span of the keyword and the path as
/// written.
#[derive(Clone, Debug, PartialEq, PartialOrd)]
pub struct Include {
    pub keyword: Spanned<()>,
    pub path: Spanned<String>,
}

impl Include {
    /// The inclusion made of what `keyword` and `path` convert to.
    pub fn new<K: Into<Spanned<()>>, P: Into<Spanned<String>>>(keyword: K, path: P) -> (inclusion:
        Self)
        ensures
            call_ensures(K::into, (keyword,), inclusion.keyword),
            call_ensures(P::into, (path,), inclusion.path),
    {
        Self { keyword: keyword.into(), path: path.into() }
    }
}

} // verus!
