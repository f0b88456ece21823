use crate::lexer::matcher::{fixed_width, offset_at, peek_view, Peek, PeekResult, PeekedToken};
use crate::lexer::{grapheme_text, is_segmentation, Grapheme, Tok, TokView};
use crate::text::str_eq;
use vstd::prelude::*;

verus! {

/// The delimiter that a text spells, if any.
pub open spec fn delimiter_of(text: Seq<char>) -> Option<TokView> {
    if text == "("@ {
        Some(TokView::DelimiterLeftParen)
    } else if text == ")"@ {
        Some(TokView::DelimiterRightParen)
    } else if text == "["@ {
        Some(TokView::DelimiterLeftBracket)
    } else if text == "]"@ {
        Some(TokView::DelimiterRightBracket)
    } else if text == ","@ {
        Some(TokView::DelimiterComma)
    } else {
        None
    }
}

/// The delimiter at grapheme `idx`: the grapheme must be one of the delimiter
/// marks, and the token takes up that single grapheme.
pub open spec fn delimiter_at(graphemes: Seq<Grapheme<'_>>, raw: &str, idx: int) -> Peek {
    fixed_width(graphemes, raw, idx, 1, delimiter_of(grapheme_text(graphemes, idx)))
}

/// Recognizes a delimiter at grapheme `idx`.
pub fn peek_delimiter<'inp>(
    graphemes: &[Grapheme<'inp>],
    idx: usize,
    raw: &'inp str,
) -> (outcome: Option<PeekResult<'inp>>)
    requires
        is_segmentation(graphemes@, raw),
    ensures
        peek_view(outcome) == delimiter_at(graphemes@, raw, idx as int),
{
    if idx >= graphemes.len() {
        return None;
    }
    let grapheme = graphemes[idx];
    let text = grapheme.1;
    let tok = if str_eq(text, "(") {
        Tok::DelimiterLeftParen
    } else if str_eq(text, ")") {
        Tok::DelimiterRightParen
    } else if str_eq(text, "[") {
        Tok::DelimiterLeftBracket
    } else if str_eq(text, "]") {
        Tok::DelimiterRightBracket
    } else if str_eq(text, ",") {
        Tok::DelimiterComma
    } else {
        return None;
    };

    let span_from: usize = grapheme.0;
    let span_to: usize = offset_at(graphemes, raw, idx + 1);
    Some(Ok(PeekedToken::new(tok, span_from, span_to, 1)))
}

} // verus!
