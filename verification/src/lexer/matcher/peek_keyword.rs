use crate::lexer::matcher::{
    cut, offset_at, peek_view, scan_word, word_end, Peek, PeekResult, PeekedToken, PeekedTokenView,
};
use crate::lexer::{boundary, is_segmentation, Grapheme, Tok, TokView};
use crate::text::{str_eq, text_between};
use vstd::prelude::*;

verus! {

/// The reserved word that a text spells, if any. The comparison is case
/// sensitive.
pub open spec fn keyword_of(text: Seq<char>) -> Option<TokView> {
    if text == "include"@ {
        Some(TokView::KeywordInclude)
    } else if text == "true"@ {
        Some(TokView::KeywordTrue)
    } else if text == "false"@ {
        Some(TokView::KeywordFalse)
    } else if text == "deflisten"@ {
        Some(TokView::KeywordDefListen)
    } else if text == "defpoll"@ {
        Some(TokView::KeywordDefPoll)
    } else if text == "defvar"@ {
        Some(TokView::KeywordDefVar)
    } else if text == "defwidget"@ {
        Some(TokView::KeywordDefWidget)
    } else if text == "defwindow"@ {
        Some(TokView::KeywordDefWindow)
    } else if text == "literal"@ {
        Some(TokView::KeywordLiteral)
    } else {
        None
    }
}

/// The keyword at grapheme `idx`: the word that starts there, up to the next
/// whitespace or delimiter grapheme, must spell a reserved word in full.
pub open spec fn keyword_at(graphemes: Seq<Grapheme<'_>>, raw: &str, idx: int) -> Peek {
    let end = word_end(graphemes, idx);
    let word = text_between(raw, boundary(graphemes, raw, idx), boundary(graphemes, raw, end));
    if 0 <= idx < graphemes.len() && keyword_of(word) is Some {
        Some(
            Ok(
                PeekedTokenView {
                    span_from: boundary(graphemes, raw, idx),
                    span_to: boundary(graphemes, raw, end),
                    tok: keyword_of(word)->0,
                    count_consumed_graphemes: end - idx,
                },
            ),
        )
    } else {
        None
    }
}

/// Recognizes a keyword at grapheme `idx`.
pub fn peek_keyword<'inp>(
    graphemes: &[Grapheme<'inp>],
    idx: usize,
    raw: &'inp str,
) -> (outcome: Option<PeekResult<'inp>>)
    requires
        is_segmentation(graphemes@, raw),
    ensures
        peek_view(outcome) == keyword_at(graphemes@, raw, idx as int),
{
    if idx >= graphemes.len() {
        return None;
    }
    let end: usize = scan_word(graphemes, idx, raw);
    let span_from: usize = graphemes[idx].0;
    let span_to: usize = offset_at(graphemes, raw, end);
    let word = cut(graphemes, raw, idx, end);
    let tok = if str_eq(word, "include") {
        Tok::KeywordInclude
    } else if str_eq(word, "true") {
        Tok::KeywordTrue
    } else if str_eq(word, "false") {
        Tok::KeywordFalse
    } else if str_eq(word, "deflisten") {
        Tok::KeywordDefListen
    } else if str_eq(word, "defpoll") {
        Tok::KeywordDefPoll
    } else if str_eq(word, "defvar") {
        Tok::KeywordDefVar
    } else if str_eq(word, "defwidget") {
        Tok::KeywordDefWidget
    } else if str_eq(word, "defwindow") {
        Tok::KeywordDefWindow
    } else if str_eq(word, "literal") {
        Tok::KeywordLiteral
    } else {
        return None;
    };
    Some(Ok(PeekedToken::new(tok, span_from, span_to, end - idx)))
}

} // verus!
