use crate::lexer::matcher::{cut, fixed_width, offset_at, peek_view, Peek, PeekResult, PeekedToken};
use crate::lexer::{boundary, grapheme_text, is_segmentation, Grapheme, Tok, TokView};
use crate::text::{str_eq, text_between};
use vstd::prelude::*;

verus! {

/// The two-character comparison operator that a text spells, if any.
pub open spec fn comparison_of_two(text: Seq<char>) -> Option<TokView> {
    if text == "=="@ {
        Some(TokView::OperatorComparisonEqual)
    } else if text == "!="@ {
        Some(TokView::OperatorComparisonNotEqual)
    } else if text == "<="@ {
        Some(TokView::OperatorComparisonLessThanOrEquals)
    } else if text == ">="@ {
        Some(TokView::OperatorComparisonGreaterThanOrEquals)
    } else {
        None
    }
}

/// The one-character comparison operator that a text spells, if any.
pub open spec fn comparison_of_one(text: Seq<char>) -> Option<TokView> {
    if text == ">"@ {
        Some(TokView::OperatorComparisonGreaterThan)
    } else if text == "<"@ {
        Some(TokView::OperatorComparisonLessThan)
    } else {
        None
    }
}

/// The comparison operator at grapheme `idx`. A two-character operator, read
/// from the text of the two graphemes at `idx`, wins over a one-character
/// operator read from the grapheme at `idx` alone.
pub open spec fn comparison_at(graphemes: Seq<Grapheme<'_>>, raw: &str, idx: int) -> Peek {
    let two = fixed_width(
        graphemes,
        raw,
        idx,
        2,
        comparison_of_two(
            text_between(raw, boundary(graphemes, raw, idx), boundary(graphemes, raw, idx + 2)),
        ),
    );
    if two is Some {
        two
    } else {
        fixed_width(graphemes, raw, idx, 1, comparison_of_one(grapheme_text(graphemes, idx)))
    }
}

/// Recognizes a comparison operator at grapheme `idx`, preferring the longer
/// match.
pub fn peek_operator_comparison<'inp>(
    graphemes: &[Grapheme<'inp>],
    idx: usize,
    raw: &'inp str,
) -> (outcome: Option<PeekResult<'inp>>)
    requires
        is_segmentation(graphemes@, raw),
    ensures
        peek_view(outcome) == comparison_at(graphemes@, raw, idx as int),
{
    if let Some(result) = peek_operator_comparison_with_two_characters(graphemes, idx, raw) {
        return Some(result);
    }
    peek_operator_comparison_with_single_character(graphemes, idx, raw)
}

fn peek_operator_comparison_with_two_characters<'inp>(
    graphemes: &[Grapheme<'inp>],
    idx: usize,
    raw: &'inp str,
) -> (outcome: Option<PeekResult<'inp>>)
    requires
        is_segmentation(graphemes@, raw),
    ensures
        peek_view(outcome) == fixed_width(
            graphemes@,
            raw,
            idx as int,
            2,
            comparison_of_two(
                text_between(
                    raw,
                    boundary(graphemes@, raw, idx as int),
                    boundary(graphemes@, raw, idx + 2),
                ),
            ),
        ),
{
    if idx >= graphemes.len() || graphemes.len() - idx < 2 {
        return None;
    }
    let first = graphemes[idx];
    let span_from: usize = first.0;
    let span_to: usize = offset_at(graphemes, raw, idx + 2);
    let text = cut(graphemes, raw, idx, idx + 2);
    let tok = if str_eq(text, "==") {
        Tok::OperatorComparisonEqual
    } else if str_eq(text, "!=") {
        Tok::OperatorComparisonNotEqual
    } else if str_eq(text, "<=") {
        Tok::OperatorComparisonLessThanOrEquals
    } else if str_eq(text, ">=") {
        Tok::OperatorComparisonGreaterThanOrEquals
    } else {
        return None;
    };

    Some(Ok(PeekedToken::new(tok, span_from, span_to, 2)))
}

fn peek_operator_comparison_with_single_character<'inp>(
    graphemes: &[Grapheme<'inp>],
    idx: usize,
    raw: &'inp str,
) -> (outcome: Option<PeekResult<'inp>>)
    requires
        is_segmentation(graphemes@, raw),
    ensures
        peek_view(outcome) == fixed_width(
            graphemes@,
            raw,
            idx as int,
            1,
            comparison_of_one(grapheme_text(graphemes@, idx as int)),
        ),
{
    if idx >= graphemes.len() {
        return None;
    }
    let grapheme = graphemes[idx];
    let span_from: usize = grapheme.0;
    let span_to: usize = offset_at(graphemes, raw, idx + 1);
    let text = grapheme.1;
    let tok = if str_eq(text, ">") {
        Tok::OperatorComparisonGreaterThan
    } else if str_eq(text, "<") {
        Tok::OperatorComparisonLessThan
    } else {
        return None;
    };

    Some(Ok(PeekedToken::new(tok, span_from, span_to, 1)))
}

} // verus!
