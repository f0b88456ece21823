use crate::lexer::matcher::{
    cut, offset_at, peek_view, scan, Peek, PeekResult, PeekedToken, PeekedTokenView,
};
use crate::lexer::{boundary, is_segmentation, Grapheme, Tok, TokView};
use crate::text::text_between;
use vstd::prelude::*;
use vstd::string::StrSliceExecFns;

verus! {

/// A grapheme is a digit when it is a single scalar value and that value is
/// an ASCII digit.
pub open spec fn is_digit_text(text: Seq<char>) -> bool {
    text.len() == 1 && '0' <= text[0] <= '9'
}

/// The predicate that stops the scan of a run of digits.
pub open spec fn digit_stop() -> spec_fn(Seq<char>) -> bool {
    |text: Seq<char>| !is_digit_text(text)
}

/// The number literal at grapheme `idx`: the longest run of digit graphemes
/// that starts there, kept as text. The matcher declines unless the grapheme
/// at `idx` is a digit.
pub open spec fn number_at(graphemes: Seq<Grapheme<'_>>, raw: &str, idx: int) -> Peek {
    let end = scan(graphemes, idx + 1, digit_stop());
    if 0 <= idx < graphemes.len() && is_digit_text(graphemes[idx].1@) {
        Some(
            Ok(
                PeekedTokenView {
                    span_from: boundary(graphemes, raw, idx),
                    span_to: boundary(graphemes, raw, end),
                    tok: TokView::LiteralNumber(
                        text_between(
                            raw,
                            boundary(graphemes, raw, idx),
                            boundary(graphemes, raw, end),
                        ),
                    ),
                    count_consumed_graphemes: end - idx,
                },
            ),
        )
    } else {
        None
    }
}

/// Recognizes a number literal at grapheme `idx`.
pub fn peek_literal_number<'inp>(
    graphemes: &[Grapheme<'inp>],
    idx: usize,
    raw: &'inp str,
) -> (outcome: Option<PeekResult<'inp>>)
    requires
        is_segmentation(graphemes@, raw),
    ensures
        peek_view(outcome) == number_at(graphemes@, raw, idx as int),
{
    if idx >= graphemes.len() {
        return None;
    }
    if !grapheme_is_digit(&graphemes[idx]) {
        return None;
    }
    let mut end: usize = idx + 1;
    while end < graphemes.len() && grapheme_is_digit(&graphemes[end])
        invariant
            idx < end <= graphemes@.len(),
            scan(graphemes@, idx + 1, digit_stop()) == scan(graphemes@, end as int, digit_stop()),
        decreases graphemes@.len() - end,
    {
        end += 1;
    }
    let span_from: usize = graphemes[idx].0;
    let span_to: usize = offset_at(graphemes, raw, end);
    let digits = cut(graphemes, raw, idx, end);
    Some(Ok(PeekedToken::new(Tok::LiteralNumber(digits), span_from, span_to, end - idx)))
}

/// Whether a grapheme is a single ASCII digit.
pub fn grapheme_is_digit(grapheme: &Grapheme<'_>) -> (digit: bool)
    ensures
        digit == is_digit_text(grapheme.1@),
{
    let text = grapheme.1;
    if text.unicode_len() != 1 {
        // Multi-scalar graphemes are not considered digits.
        return false;
    }
    let c = text.get_char(0);
    '0' <= c && c <= '9'
}

} // verus!
