use crate::lexer::matcher::{fixed_width, offset_at, peek_view, Peek, PeekResult, PeekedToken};
use crate::lexer::{grapheme_text, is_segmentation, Grapheme, Tok, TokView};
use crate::text::str_eq;
use vstd::prelude::*;

verus! {

/// The punctuation mark that a text spells, if any.
pub open spec fn punctuation_of(text: Seq<char>) -> Option<TokView> {
    if text == "?"@ {
        Some(TokView::PunctuationQuestionMark)
    } else if text == ":"@ {
        Some(TokView::PunctuationColon)
    } else {
        None
    }
}

/// The punctuation at grapheme `idx`: the grapheme must be one of the
/// punctuation marks, and the token takes up that single grapheme.
pub open spec fn punctuation_at(graphemes: Seq<Grapheme<'_>>, raw: &str, idx: int) -> Peek {
    fixed_width(graphemes, raw, idx, 1, punctuation_of(grapheme_text(graphemes, idx)))
}

/// Recognizes a punctuation at grapheme `idx`.
pub fn peek_punctuation<'inp>(
    graphemes: &[Grapheme<'inp>],
    idx: usize,
    raw: &'inp str,
) -> (outcome: Option<PeekResult<'inp>>)
    requires
        is_segmentation(graphemes@, raw),
    ensures
        peek_view(outcome) == punctuation_at(graphemes@, raw, idx as int),
{
    if idx >= graphemes.len() {
        return None;
    }
    let grapheme = graphemes[idx];
    let text = grapheme.1;
    let tok = if str_eq(text, "?") {
        Tok::PunctuationQuestionMark
    } else if str_eq(text, ":") {
        Tok::PunctuationColon
    } else {
        return None;
    };

    let span_from: usize = grapheme.0;
    let span_to: usize = offset_at(graphemes, raw, idx + 1);
    Some(Ok(PeekedToken::new(tok, span_from, span_to, 1)))
}

} // verus!
