use crate::lexer::matcher::scan;
use crate::lexer::{grapheme_is_whitespace, is_whitespace_text, Grapheme};
use vstd::prelude::*;

verus! {

/// The predicate that stops the scan of a run of whitespace.
pub open spec fn whitespace_stop() -> spec_fn(Seq<char>) -> bool {
    |text: Seq<char>| !is_whitespace_text(text)
}

/// Index of the first grapheme at or after `idx` that is not whitespace, or
/// the number of graphemes if only whitespace is left.
pub open spec fn whitespace_end(graphemes: Seq<Grapheme<'_>>, idx: int) -> int {
    scan(graphemes, idx, whitespace_stop())
}

/// Counts the whitespace graphemes that start at grapheme `idx`.
pub fn peek_whitespace<'inp>(
    graphemes: &[Grapheme<'inp>],
    idx: usize,
    raw: &'inp str,
) -> (count: usize)
    requires
        idx <= graphemes@.len(),
    ensures
        count == whitespace_end(graphemes@, idx as int) - idx,
{
    let mut end: usize = idx;
    while end < graphemes.len() && grapheme_is_whitespace(&graphemes[end])
        invariant
            idx <= end <= graphemes@.len(),
            whitespace_end(graphemes@, idx as int) == scan(
                graphemes@,
                end as int,
                whitespace_stop(),
            ),
        decreases graphemes@.len() - end,
    {
        end += 1;
    }
    end - idx
}

} // verus!
