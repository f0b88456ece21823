use crate::lexer::matcher::{
    cut, offset_at, peek_view, scan, Peek, PeekResult, PeekedToken, PeekedTokenView,
};
use crate::lexer::{boundary, is_segmentation, Grapheme, Tok, TokView};
use crate::text::{str_eq, text_between};
use vstd::prelude::*;

verus! {

/// A line comment ends before a line-feed grapheme.
pub open spec fn is_line_feed(text: Seq<char>) -> bool {
    text == "\n"@
}

/// The predicate that stops the scan of a comment.
pub open spec fn line_feed_stop() -> spec_fn(Seq<char>) -> bool {
    |text: Seq<char>| is_line_feed(text)
}

/// The line comment at grapheme `idx`. The matcher declines unless that
/// grapheme is a semicolon. The comment runs up to, and does not include,
/// the next line-feed grapheme, or to the end of the text when there is
/// none. Its body is the text after the semicolon.
pub open spec fn comment_at(graphemes: Seq<Grapheme<'_>>, raw: &str, idx: int) -> Peek {
    let end = scan(graphemes, idx + 1, line_feed_stop());
    if 0 <= idx < graphemes.len() && graphemes[idx].1@ == ";"@ {
        Some(
            Ok(
                PeekedTokenView {
                    span_from: boundary(graphemes, raw, idx),
                    span_to: boundary(graphemes, raw, end),
                    tok: TokView::Comment(
                        text_between(
                            raw,
                            boundary(graphemes, raw, idx + 1),
                            boundary(graphemes, raw, end),
                        ),
                    ),
                    count_consumed_graphemes: end - idx,
                },
            ),
        )
    } else {
        None
    }
}

/// Recognizes a line comment at grapheme `idx`.
pub fn peek_comment<'inp>(
    graphemes: &[Grapheme<'inp>],
    idx: usize,
    raw: &'inp str,
) -> (outcome: Option<PeekResult<'inp>>)
    requires
        is_segmentation(graphemes@, raw),
    ensures
        peek_view(outcome) == comment_at(graphemes@, raw, idx as int),
{
    if idx >= graphemes.len() {
        return None;
    }
    if !str_eq(graphemes[idx].1, ";") {
        return None;
    }
    let mut end: usize = idx + 1;
    while end < graphemes.len() && !str_eq(graphemes[end].1, "\n")
        invariant
            idx < end <= graphemes@.len(),
            scan(graphemes@, idx + 1, line_feed_stop()) == scan(
                graphemes@,
                end as int,
                line_feed_stop(),
            ),
        decreases graphemes@.len() - end,
    {
        end += 1;
    }
    let span_from: usize = graphemes[idx].0;
    let span_to: usize = offset_at(graphemes, raw, end);
    let body = cut(graphemes, raw, idx + 1, end);
    Some(Ok(PeekedToken::new(Tok::Comment(body), span_from, span_to, end - idx)))
}

} // verus!
