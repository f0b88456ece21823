use crate::lexer::matcher::{fixed_width, offset_at, peek_view, Peek, PeekResult, PeekedToken};
use crate::lexer::{grapheme_text, is_segmentation, Grapheme, Tok, TokView};
use crate::text::str_eq;
use vstd::prelude::*;

verus! {

/// The mathematical operator that a text spells, if any.
pub open spec fn math_of(text: Seq<char>) -> Option<TokView> {
    if text == "%"@ {
        Some(TokView::OperatorMathModulo)
    } else if text == "*"@ {
        Some(TokView::OperatorMathMultiplication)
    } else if text == "+"@ {
        Some(TokView::OperatorMathAddition)
    } else if text == "-"@ {
        Some(TokView::OperatorMathSubtraction)
    } else if text == "/"@ {
        Some(TokView::OperatorMathDivision)
    } else {
        None
    }
}

/// The mathematical operator at grapheme `idx`: the grapheme must be one of
/// the mathematical operator marks, and the token takes up that single
/// grapheme.
pub open spec fn math_at(graphemes: Seq<Grapheme<'_>>, raw: &str, idx: int) -> Peek {
    fixed_width(graphemes, raw, idx, 1, math_of(grapheme_text(graphemes, idx)))
}

/// Recognizes a mathematical operator at grapheme `idx`.
pub fn peek_operator_math<'inp>(
    graphemes: &[Grapheme<'inp>],
    idx: usize,
    raw: &'inp str,
) -> (outcome: Option<PeekResult<'inp>>)
    requires
        is_segmentation(graphemes@, raw),
    ensures
        peek_view(outcome) == math_at(graphemes@, raw, idx as int),
{
    if idx >= graphemes.len() {
        return None;
    }
    let grapheme = graphemes[idx];
    let text = grapheme.1;
    let tok = if str_eq(text, "%") {
        Tok::OperatorMathModulo
    } else if str_eq(text, "*") {
        Tok::OperatorMathMultiplication
    } else if str_eq(text, "+") {
        Tok::OperatorMathAddition
    } else if str_eq(text, "-") {
        Tok::OperatorMathSubtraction
    } else if str_eq(text, "/") {
        Tok::OperatorMathDivision
    } else {
        return None;
    };

    let span_from: usize = grapheme.0;
    let span_to: usize = offset_at(graphemes, raw, idx + 1);
    Some(Ok(PeekedToken::new(tok, span_from, span_to, 1)))
}

} // verus!
