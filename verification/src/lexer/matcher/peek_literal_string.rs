use crate::lexer::matcher::{
    cut, offset_at, peek_view, scan, Peek, PeekResult, PeekedToken, PeekedTokenView,
};
use crate::lexer::{
    boundary, is_segmentation, lemma_boundaries_increase, Grapheme, LexicalError,
    LexicalErrorView, Tok, TokView,
};
use crate::spanned::SourceSpan;
use crate::text::{byte_len, str_eq, text_between};
use vstd::prelude::*;
use vstd::string::StringSliceAdditionalSpecFns;

verus! {

/// The double quote opens and closes a string literal.
pub open spec fn is_quote(text: Seq<char>) -> bool {
    text == "\""@
}

/// The predicate that stops the scan for a closing quote.
pub open spec fn quote_stop() -> spec_fn(Seq<char>) -> bool {
    |text: Seq<char>| is_quote(text)
}

/// Index of the first quote after the one at `idx`, or the number of
/// graphemes if the literal is never closed.
pub open spec fn closing_quote(graphemes: Seq<Grapheme<'_>>, idx: int) -> int {
    scan(graphemes, idx + 1, quote_stop())
}

/// The string literal at grapheme `idx`. The matcher declines unless that
/// grapheme is a double quote. The literal runs up to the next double quote,
/// with no escape processing, and its value is the text strictly between the
/// two quotes. Without a closing quote the outcome is an error whose span
/// runs from the opening quote to the end of the text.
pub open spec fn string_at(graphemes: Seq<Grapheme<'_>>, raw: &str, idx: int) -> Peek {
    if 0 <= idx < graphemes.len() && is_quote(graphemes[idx].1@) {
        let start = boundary(graphemes, raw, idx);
        let close = closing_quote(graphemes, idx);
        if close < graphemes.len() {
            Some(
                Ok(
                    PeekedTokenView {
                        span_from: start,
                        span_to: boundary(graphemes, raw, close + 1),
                        tok: TokView::LiteralString(
                            text_between(
                                raw,
                                boundary(graphemes, raw, idx + 1),
                                boundary(graphemes, raw, close),
                            ),
                        ),
                        count_consumed_graphemes: close + 1 - idx,
                    },
                ),
            )
        } else {
            Some(
                Err(
                    LexicalErrorView::UnterminatedLiteralString {
                        src: raw@,
                        span: SourceSpan {
                            offset: start as usize,
                            length: (raw.spec_bytes().len() - start) as usize,
                        },
                    },
                ),
            )
        }
    } else {
        None
    }
}

/// Recognizes a string literal at grapheme `idx`.
pub fn peek_literal_string<'inp>(
    graphemes: &[Grapheme<'inp>],
    idx: usize,
    raw: &'inp str,
) -> (outcome: Option<PeekResult<'inp>>)
    requires
        is_segmentation(graphemes@, raw),
    ensures
        peek_view(outcome) == string_at(graphemes@, raw, idx as int),
{
    if idx >= graphemes.len() {
        return None;
    }
    if !str_eq(graphemes[idx].1, "\"") {
        return None;
    }
    let mut close: usize = idx + 1;
    while close < graphemes.len() && !str_eq(graphemes[close].1, "\"")
        invariant
            idx < close <= graphemes@.len(),
            closing_quote(graphemes@, idx as int) == scan(graphemes@, close as int, quote_stop()),
        decreases graphemes@.len() - close,
    {
        close += 1;
    }
    let span_from: usize = graphemes[idx].0;
    proof {
        lemma_boundaries_increase(graphemes@, raw, idx as int, graphemes@.len() as int);
    }
    if close >= graphemes.len() {
        return Some(
            Err(
                LexicalError::UnterminatedLiteralString {
                    src: raw,
                    span: SourceSpan::new(span_from, byte_len(raw) - span_from),
                },
            ),
        );
    }
    let value = cut(graphemes, raw, idx + 1, close);
    let span_to: usize = offset_at(graphemes, raw, close + 1);
    Some(Ok(PeekedToken::new(Tok::LiteralString(value), span_from, span_to, close + 1 - idx)))
}

} // verus!
