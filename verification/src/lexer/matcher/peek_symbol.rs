use crate::lexer::matcher::{
    cut, offset_at, peek_view, scan_word, word_end, Peek, PeekResult, PeekedToken, PeekedTokenView,
};
use crate::lexer::{boundary, is_segmentation, Grapheme, Tok, TokView};
use crate::text::text_between;
use vstd::prelude::*;

verus! {

/// The symbol at grapheme `idx`: the word that starts there, up to the next
/// whitespace or delimiter grapheme. The matcher declines only past the last
/// grapheme; at a whitespace or delimiter grapheme the symbol is empty.
pub open spec fn symbol_at(graphemes: Seq<Grapheme<'_>>, raw: &str, idx: int) -> Peek {
    let end = word_end(graphemes, idx);
    if 0 <= idx < graphemes.len() {
        Some(
            Ok(
                PeekedTokenView {
                    span_from: boundary(graphemes, raw, idx),
                    span_to: boundary(graphemes, raw, end),
                    tok: TokView::LiteralSymbol(
                        text_between(
                            raw,
                            boundary(graphemes, raw, idx),
                            boundary(graphemes, raw, end),
                        ),
                    ),
                    count_consumed_graphemes: end - idx,
                },
            ),
        )
    } else {
        None
    }
}

/// Recognizes a symbol at grapheme `idx`.
pub fn peek_symbol<'inp>(
    graphemes: &[Grapheme<'inp>],
    idx: usize,
    raw: &'inp str,
) -> (outcome: Option<PeekResult<'inp>>)
    requires
        is_segmentation(graphemes@, raw),
    ensures
        peek_view(outcome) == symbol_at(graphemes@, raw, idx as int),
{
    if idx >= graphemes.len() {
        return None;
    }
    let end: usize = scan_word(graphemes, idx, raw);
    let span_from: usize = graphemes[idx].0;
    let span_to: usize = offset_at(graphemes, raw, end);
    let name = cut(graphemes, raw, idx, end);
    Some(Ok(PeekedToken::new(Tok::LiteralSymbol(name), span_from, span_to, end - idx)))
}

} // verus!
