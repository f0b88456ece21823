//! The matcher chain: independent recognizers that inspect the graphemes at
//! a cursor and either decline, recognize a token, or report a lexical error.

use super::{
    boundary, grapheme_is_whitespace, is_segmentation, is_whitespace_text,
    lemma_boundaries_increase, lemma_boundary_is_char_boundary, Grapheme, LexicalError,
    LexicalErrorView, Tok, TokView,
};
use crate::text::{byte_len, slice, text_between};
use vstd::prelude::*;
use vstd::string::StringSliceAdditionalSpecFns;

mod peek_comment;
mod peek_delimiter;
mod peek_keyword;
mod peek_literal_number;
mod peek_literal_string;
mod peek_operator_comparison;
mod peek_operator_logical;
mod peek_operator_math;
mod peek_punctuation;
mod peek_symbol;
mod peek_whitespace;

pub use peek_comment::{comment_at, is_line_feed, line_feed_stop, peek_comment};
pub use peek_delimiter::{delimiter_at, delimiter_of, peek_delimiter};
pub use peek_keyword::{keyword_at, keyword_of, peek_keyword};
pub use peek_literal_number::{
    digit_stop, grapheme_is_digit, is_digit_text, number_at, peek_literal_number,
};
pub use peek_literal_string::{closing_quote, is_quote, peek_literal_string, quote_stop, string_at};
pub use peek_operator_comparison::{
    comparison_at, comparison_of_one, comparison_of_two, peek_operator_comparison,
};
pub use peek_operator_logical::{logical_at, logical_of_one, logical_of_two, peek_operator_logical};
pub use peek_operator_math::{math_at, math_of, peek_operator_math};
pub use peek_punctuation::{peek_punctuation, punctuation_at, punctuation_of};
pub use peek_symbol::{peek_symbol, symbol_at};
pub use peek_whitespace::{peek_whitespace, whitespace_end, whitespace_stop};

verus! {

/// A token recognized at a cursor: where it starts and ends in the source
/// text, and how many graphemes it takes up.
#[derive(Debug, Clone, PartialEq, PartialOrd)]
pub struct PeekedToken<'inp> {
    pub span_from: usize,
    pub span_to: usize,
    pub tok: Tok<'inp>,
    pub count_consumed_graphemes: usize,
}

/// A recognized token, with the text of its payload in place of the borrowed
/// slice.
pub struct PeekedTokenView {
    pub span_from: int,
    pub span_to: int,
    pub tok: TokView,
    pub count_consumed_graphemes: int,
}

impl<'inp> View for PeekedToken<'inp> {
    type V = PeekedTokenView;

    open spec fn view(&self) -> PeekedTokenView {
        PeekedTokenView {
            span_from: self.span_from as int,
            span_to: self.span_to as int,
            tok: self.tok@,
            count_consumed_graphemes: self.count_consumed_graphemes as int,
        }
    }
}

impl<'inp> PeekedToken<'inp> {
    /// The token `tok`, found in the bytes `span_from..span_to`, taking up
    /// `consumed` graphemes.
    pub fn new(tok: Tok<'inp>, span_from: usize, span_to: usize, consumed: usize) -> (peeked: Self)
        ensures
            peeked == (PeekedToken {
                span_from,
                span_to,
                tok,
                count_consumed_graphemes: consumed,
            }),
    {
        Self { span_from, span_to, tok, count_consumed_graphemes: consumed }
    }
}

/// What a matcher finds when it does not decline.
pub type PeekResult<'inp> = Result<PeekedToken<'inp>, LexicalError<'inp>>;

/// The outcome of a matcher, in terms of texts: `None` when it declines.
pub type Peek = Option<Result<PeekedTokenView, LexicalErrorView>>;

/// The outcome of a matcher with texts in place of borrowed slices.
pub open spec fn peek_view(outcome: Option<PeekResult<'_>>) -> Peek {
    match outcome {
        None => None,
        Some(Ok(peeked)) => Some(Ok(peeked@)),
        Some(Err(error)) => Some(Err(error@)),
    }
}

/// Index of the first grapheme at or after `from` whose text satisfies
/// `stop`; the number of graphemes if there is none.
pub open spec fn scan(
    graphemes: Seq<Grapheme<'_>>,
    from: int,
    stop: spec_fn(Seq<char>) -> bool,
) -> int
    decreases graphemes.len() - from,
{
    if 0 <= from < graphemes.len() && !stop(graphemes[from].1@) {
        scan(graphemes, from + 1, stop)
    } else {
        from
    }
}

/// What `scan` finds: no grapheme before the result satisfies `stop`, and
/// the one at the result does, unless the result is the number of graphemes.
pub proof fn lemma_scan(graphemes: Seq<Grapheme<'_>>, from: int, stop: spec_fn(Seq<char>) -> bool)
    requires
        0 <= from <= graphemes.len(),
    ensures
        from <= scan(graphemes, from, stop) <= graphemes.len(),
        forall|k: int|
            from <= k < scan(graphemes, from, stop) ==> !stop((#[trigger] graphemes[k]).1@),
        scan(graphemes, from, stop) < graphemes.len() ==> stop(
            graphemes[scan(graphemes, from, stop)].1@,
        ),
    decreases graphemes.len() - from,
{
    if from < graphemes.len() && !stop(graphemes[from].1@) {
        lemma_scan(graphemes, from + 1, stop);
    }
}

/// Byte offset at which the `i`-th grapheme starts, or the length of the
/// text for `i` past the last grapheme.
pub(crate) fn offset_at(graphemes: &[Grapheme<'_>], raw: &str, i: usize) -> (offset: usize)
    ensures
        offset == boundary(graphemes@, raw, i as int),
{
    if i < graphemes.len() {
        graphemes[i].0
    } else {
        byte_len(raw)
    }
}

/// The slice of the source text that the graphemes `from..to` cover.
pub(crate) fn cut<'inp>(
    graphemes: &[Grapheme<'_>],
    raw: &'inp str,
    from: usize,
    to: usize,
) -> (part: &'inp str)
    requires
        is_segmentation(graphemes@, raw),
        from <= to <= graphemes@.len(),
    ensures
        part@ == text_between(
            raw,
            boundary(graphemes@, raw, from as int),
            boundary(graphemes@, raw, to as int),
        ),
{
    proof {
        lemma_boundaries_increase(graphemes@, raw, from as int, to as int);
        lemma_boundary_is_char_boundary(graphemes@, raw, from as int);
        lemma_boundary_is_char_boundary(graphemes@, raw, to as int);
    }
    slice(raw, offset_at(graphemes, raw, from), offset_at(graphemes, raw, to))
}

/// The token `tok`, if there is one, taking up the `count` graphemes that
/// start at `idx`; the matcher declines when there is no token or when fewer
/// than `count` graphemes are left.
pub open spec fn fixed_width(
    graphemes: Seq<Grapheme<'_>>,
    raw: &str,
    idx: int,
    count: int,
    tok: Option<TokView>,
) -> Peek {
    if 0 <= idx && idx + count <= graphemes.len() && tok is Some {
        Some(
            Ok(
                PeekedTokenView {
                    span_from: boundary(graphemes, raw, idx),
                    span_to: boundary(graphemes, raw, idx + count),
                    tok: tok->0,
                    count_consumed_graphemes: count,
                },
            ),
        )
    } else {
        None
    }
}

/// A keyword or a symbol ends before a grapheme that is whitespace or a
/// delimiter.
pub open spec fn ends_word(text: Seq<char>) -> bool {
    is_whitespace_text(text) || delimiter_of(text) is Some
}

/// The predicate that stops the scan of a keyword or symbol.
pub open spec fn word_stop() -> spec_fn(Seq<char>) -> bool {
    |text: Seq<char>| ends_word(text)
}

/// Index of the first grapheme at or after `idx` that ends a word, or the
/// number of graphemes if the word runs to the end of the text.
pub open spec fn word_end(graphemes: Seq<Grapheme<'_>>, idx: int) -> int {
    scan(graphemes, idx, word_stop())
}

/// Scans forward from grapheme `idx` to the end of the word that starts
/// there.
pub(crate) fn scan_word<'inp>(
    graphemes: &[Grapheme<'inp>],
    idx: usize,
    raw: &'inp str,
) -> (end: usize)
    requires
        is_segmentation(graphemes@, raw),
        idx <= graphemes@.len(),
    ensures
        end == word_end(graphemes@, idx as int),
        idx <= end <= graphemes@.len(),
{
    let mut end: usize = idx;
    while end < graphemes.len() && !grapheme_is_whitespace(&graphemes[end]) && peek_delimiter(
        graphemes,
        end,
        raw,
    ).is_none()
        invariant
            is_segmentation(graphemes@, raw),
            idx <= end <= graphemes@.len(),
            word_end(graphemes@, idx as int) == scan(graphemes@, end as int, word_stop()),
        decreases graphemes@.len() - end,
    {
        end += 1;
    }
    end
}

/// The matcher chain at grapheme `idx`: the outcome of the first matcher, in
/// order of precedence, that does not decline. Keywords come before
/// delimiters, punctuation, string and number literals and the three operator
/// families; the symbol matcher comes last.
pub open spec fn token_at(graphemes: Seq<Grapheme<'_>>, raw: &str, idx: int) -> Peek {
    if keyword_at(graphemes, raw, idx) is Some {
        keyword_at(graphemes, raw, idx)
    } else if delimiter_at(graphemes, raw, idx) is Some {
        delimiter_at(graphemes, raw, idx)
    } else if punctuation_at(graphemes, raw, idx) is Some {
        punctuation_at(graphemes, raw, idx)
    } else if string_at(graphemes, raw, idx) is Some {
        string_at(graphemes, raw, idx)
    } else if number_at(graphemes, raw, idx) is Some {
        number_at(graphemes, raw, idx)
    } else if math_at(graphemes, raw, idx) is Some {
        math_at(graphemes, raw, idx)
    } else if comparison_at(graphemes, raw, idx) is Some {
        comparison_at(graphemes, raw, idx)
    } else if logical_at(graphemes, raw, idx) is Some {
        logical_at(graphemes, raw, idx)
    } else {
        symbol_at(graphemes, raw, idx)
    }
}

/// Runs the matcher chain at grapheme `idx`.
pub fn peek_token<'inp>(
    graphemes: &[Grapheme<'inp>],
    idx: usize,
    raw: &'inp str,
) -> (outcome: Option<PeekResult<'inp>>)
    requires
        is_segmentation(graphemes@, raw),
    ensures
        peek_view(outcome) == token_at(graphemes@, raw, idx as int),
{
    if let Some(found) = peek_keyword(graphemes, idx, raw) {
        return Some(found);
    }
    if let Some(found) = peek_delimiter(graphemes, idx, raw) {
        return Some(found);
    }
    if let Some(found) = peek_punctuation(graphemes, idx, raw) {
        return Some(found);
    }
    if let Some(found) = peek_literal_string(graphemes, idx, raw) {
        return Some(found);
    }
    if let Some(found) = peek_literal_number(graphemes, idx, raw) {
        return Some(found);
    }
    if let Some(found) = peek_operator_math(graphemes, idx, raw) {
        return Some(found);
    }
    if let Some(found) = peek_operator_comparison(graphemes, idx, raw) {
        return Some(found);
    }
    if let Some(found) = peek_operator_logical(graphemes, idx, raw) {
        return Some(found);
    }
    peek_symbol(graphemes, idx, raw)
}

/// A recognized token that starts at grapheme `idx`, takes up at least one
/// grapheme and ends at a grapheme boundary.
pub open spec fn spans_cursor(
    outcome: Peek,
    graphemes: Seq<Grapheme<'_>>,
    raw: &str,
    idx: int,
) -> bool {
    outcome matches Some(Ok(token)) ==> {
        &&& 1 <= token.count_consumed_graphemes <= graphemes.len() - idx
        &&& token.span_from == boundary(graphemes, raw, idx)
        &&& token.span_to == boundary(graphemes, raw, idx + token.count_consumed_graphemes)
    }
}

/// No reserved word is empty.
pub proof fn lemma_keywords_not_empty()
    ensures
        keyword_of(Seq::<char>::empty()) is None,
{
    reveal_strlit("include");
    assert("include"@.len() == 7);
    reveal_strlit("true");
    assert("true"@.len() == 4);
    reveal_strlit("false");
    assert("false"@.len() == 5);
    reveal_strlit("deflisten");
    assert("deflisten"@.len() == 9);
    reveal_strlit("defpoll");
    assert("defpoll"@.len() == 7);
    reveal_strlit("defvar");
    assert("defvar"@.len() == 6);
    reveal_strlit("defwidget");
    assert("defwidget"@.len() == 9);
    reveal_strlit("defwindow");
    assert("defwindow"@.len() == 9);
    reveal_strlit("literal");
    assert("literal"@.len() == 7);
}

proof fn lemma_keyword_spans_cursor(graphemes: Seq<Grapheme<'_>>, raw: &str, idx: int)
    requires
        is_segmentation(graphemes, raw),
        0 <= idx < graphemes.len(),
    ensures
        spans_cursor(keyword_at(graphemes, raw, idx), graphemes, raw, idx),
{
    lemma_scan(graphemes, idx, word_stop());
    if word_end(graphemes, idx) == idx {
        let at = boundary(graphemes, raw, idx);
        assert(raw.spec_bytes().subrange(at, at) =~= Seq::<u8>::empty());
        assert(text_between(raw, at, at) =~= Seq::<char>::empty());
        lemma_keywords_not_empty();
    }
}

proof fn lemma_literal_spans_cursor(graphemes: Seq<Grapheme<'_>>, raw: &str, idx: int)
    requires
        is_segmentation(graphemes, raw),
        0 <= idx < graphemes.len(),
    ensures
        spans_cursor(string_at(graphemes, raw, idx), graphemes, raw, idx),
        spans_cursor(number_at(graphemes, raw, idx), graphemes, raw, idx),
{
    lemma_scan(graphemes, idx + 1, quote_stop());
    lemma_scan(graphemes, idx + 1, digit_stop());
}

proof fn lemma_symbol_spans_cursor(graphemes: Seq<Grapheme<'_>>, raw: &str, idx: int)
    requires
        is_segmentation(graphemes, raw),
        0 <= idx < graphemes.len(),
        !ends_word(graphemes[idx].1@),
    ensures
        spans_cursor(symbol_at(graphemes, raw, idx), graphemes, raw, idx),
{
    lemma_scan(graphemes, idx + 1, word_stop());
    assert(word_end(graphemes, idx) == scan(graphemes, idx + 1, word_stop()));
}

/// At a grapheme that is not whitespace the chain never declines, and a
/// token it recognizes starts at that grapheme, takes up at least one
/// grapheme and ends at a grapheme boundary.
pub proof fn lemma_token_spans_cursor(graphemes: Seq<Grapheme<'_>>, raw: &str, idx: int)
    requires
        is_segmentation(graphemes, raw),
        0 <= idx < graphemes.len(),
        !is_whitespace_text(graphemes[idx].1@),
    ensures
        token_at(graphemes, raw, idx) is Some,
        spans_cursor(token_at(graphemes, raw, idx), graphemes, raw, idx),
{
    lemma_keyword_spans_cursor(graphemes, raw, idx);
    lemma_literal_spans_cursor(graphemes, raw, idx);
    if delimiter_at(graphemes, raw, idx) is None {
        lemma_symbol_spans_cursor(graphemes, raw, idx);
    }
}

} // verus!
