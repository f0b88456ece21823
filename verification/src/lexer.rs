//! The tokenizer: a cursor over the graphemes of a source text that skips
//! whitespace and drives the matcher chain.

use crate::spanned::SourceSpan;
use matcher::{
    lemma_scan, lemma_token_spans_cursor, peek_token, peek_whitespace, token_at, whitespace_end,
    whitespace_stop, PeekedToken,
};
use vstd::prelude::*;
use vstd::std_specs::convert::FromSpecImpl;
use vstd::string::StringSliceAdditionalSpecFns;

pub mod error;
pub mod grapheme;
pub mod matcher;
pub mod tok;

pub use error::{LexicalError, LexicalErrorView};
pub use grapheme::{
    boundary, cluster_texts, grapheme_clusters, grapheme_end, grapheme_is_whitespace,
    grapheme_text, is_segmentation, is_segmentation_of, is_whitespace_text, joined, joined_text,
    lemma_boundaries_increase, lemma_boundaries_ordered, lemma_boundary_is_char_boundary,
    lemma_grapheme_end, lemma_grapheme_text, lemma_graphemes_cover_text, segment, white_space,
    Grapheme,
};
pub use tok::{Tok, TokView};

verus! {

/// An item of the token sequence in terms of texts: the byte offset where a
/// token starts, what the token is and the byte offset where it ends; or the
/// error that ends the sequence.
pub type ItemView = Result<(int, TokView, int), LexicalErrorView>;

/// What the tokenizer yields for one token: the byte offset where the token
/// starts, the token, and the byte offset where it ends; or the error that
/// ends the sequence.
pub type LexerResult<'inp> = Result<(usize, Tok<'inp>, usize), LexicalError<'inp>>;

/// A lexer result with texts in place of borrowed slices.
pub open spec fn lexer_result_view(result: LexerResult<'_>) -> ItemView {
    match result {
        Ok((from, tok, to)) => Ok((from as int, tok@, to as int)),
        Err(error) => Err(error@),
    }
}

/// The items of a sequence, with texts in place of borrowed slices.
pub open spec fn items_view(items: Seq<LexerResult<'_>>) -> Seq<ItemView> {
    Seq::new(items.len(), |i: int| lexer_result_view(items[i]))
}

/// What a pull yields, with texts in place of borrowed slices.
pub open spec fn item_view(item: Option<LexerResult<'_>>) -> Option<ItemView> {
    match item {
        None => None,
        Some(result) => Some(lexer_result_view(result)),
    }
}

impl<'inp> From<PeekedToken<'inp>> for LexerResult<'inp> {
    fn from(value: PeekedToken<'inp>) -> (result: Self) {
        Ok((value.span_from, value.tok, value.span_to))
    }
}

impl<'inp> FromSpecImpl<PeekedToken<'inp>> for LexerResult<'inp> {
    open spec fn obeys_from_spec() -> bool {
        true
    }

    open spec fn from_spec(value: PeekedToken<'inp>) -> Self {
        Ok((value.span_from, value.tok, value.span_to))
    }
}

/// What the tokenizer yields when pulled with its cursor at grapheme
/// `cursor`: nothing if only whitespace is left; otherwise the outcome of the
/// matcher chain at the first grapheme that is not whitespace, or an error
/// that names that grapheme if every matcher declines.
pub open spec fn next_item(graphemes: Seq<Grapheme<'_>>, raw: &str, cursor: int) -> Option<
    ItemView,
> {
    let start = whitespace_end(graphemes, cursor);
    if start >= graphemes.len() {
        None
    } else {
        match token_at(graphemes, raw, start) {
            Some(Ok(token)) => Some(Ok((token.span_from, token.tok, token.span_to))),
            Some(Err(error)) => Some(Err(error)),
            None => Some(
                Err(
                    LexicalErrorView::UnrecognizedToken {
                        src: raw@,
                        span: SourceSpan {
                            offset: boundary(graphemes, raw, start) as usize,
                            length: 1,
                        },
                        char: grapheme_text(graphemes, start),
                    },
                ),
            ),
        }
    }
}

/// Where the cursor stands after a pull at grapheme `cursor`: past the
/// whitespace that was skipped and past the token, if one was recognized.
pub open spec fn next_cursor(graphemes: Seq<Grapheme<'_>>, raw: &str, cursor: int) -> int {
    let start = whitespace_end(graphemes, cursor);
    match token_at(graphemes, raw, start) {
        Some(Ok(token)) if start < graphemes.len() => start + token.count_consumed_graphemes,
        _ => start,
    }
}

/// A pull never moves the cursor back nor past the last grapheme. A token
/// that it yields starts where the skipped whitespace ends, ends where the
/// cursor stands afterwards, and covers at least one byte. The matcher chain
/// leaves no grapheme unrecognized.
pub proof fn lemma_next_advances(graphemes: Seq<Grapheme<'_>>, raw: &str, cursor: int)
    requires
        is_segmentation(graphemes, raw),
        0 <= cursor <= graphemes.len(),
    ensures
        cursor <= next_cursor(graphemes, raw, cursor) <= graphemes.len(),
        next_item(graphemes, raw, cursor) matches Some(Ok((from, _, to))) ==> {
            &&& cursor < next_cursor(graphemes, raw, cursor)
            &&& from == boundary(graphemes, raw, whitespace_end(graphemes, cursor))
            &&& to == boundary(graphemes, raw, next_cursor(graphemes, raw, cursor))
            &&& 0 <= from < to <= raw.spec_bytes().len()
        },
        !(next_item(graphemes, raw, cursor) matches Some(
            Err(LexicalErrorView::UnrecognizedToken { .. }),
        )),
{
    lemma_scan(graphemes, cursor, whitespace_stop());
    let start = whitespace_end(graphemes, cursor);
    if start < graphemes.len() {
        lemma_token_spans_cursor(graphemes, raw, start);
        lemma_boundaries_increase(graphemes, raw, start, next_cursor(graphemes, raw, cursor));
    }
}

/// The items that the tokenizer yields from grapheme `cursor` on, in order:
/// one per pull, up to and including the first error.
pub open spec fn items_from(graphemes: Seq<Grapheme<'_>>, raw: &str, cursor: int) -> Seq<ItemView>
    decreases graphemes.len() - cursor,
{
    let after = next_cursor(graphemes, raw, cursor);
    match next_item(graphemes, raw, cursor) {
        None => Seq::empty(),
        Some(Err(error)) => seq![Err(error)],
        Some(Ok(token)) => if cursor < after <= graphemes.len() {
            seq![Ok(token)] + items_from(graphemes, raw, after)
        } else {
            seq![Ok(token)]
        },
    }
}

/// A lexical error ends the sequence: only its last item can be an error.
pub proof fn lemma_error_is_last(graphemes: Seq<Grapheme<'_>>, raw: &str, cursor: int)
    requires
        0 <= cursor <= graphemes.len(),
    ensures
        forall|i: int|
            0 <= i < items_from(graphemes, raw, cursor).len() - 1 ==> (#[trigger] items_from(
                graphemes,
                raw,
                cursor,
            )[i]) is Ok,
    decreases graphemes.len() - cursor,
{
    let after = next_cursor(graphemes, raw, cursor);
    let items = items_from(graphemes, raw, cursor);
    if next_item(graphemes, raw, cursor) matches Some(Ok(_)) && cursor < after <= graphemes.len() {
        let rest = items_from(graphemes, raw, after);
        lemma_error_is_last(graphemes, raw, after);
        assert forall|i: int| 0 <= i < items.len() - 1 implies (#[trigger] items[i]) is Ok by {
            if i > 0 {
                assert(items[i] == rest[i - 1]);
            }
        }
    }
}

/// No item of the sequence is an error.
pub open spec fn free_of_errors(items: Seq<ItemView>) -> bool {
    forall|i: int| 0 <= i < items.len() ==> (#[trigger] items[i]) is Ok
}

/// The bytes that the tokenizer walks over from grapheme `cursor` on: for
/// each pull the whitespace it skips, then the bytes `from..to` of the token
/// it yields.
pub open spec fn reassembled(graphemes: Seq<Grapheme<'_>>, raw: &str, cursor: int) -> Seq<u8>
    decreases graphemes.len() - cursor,
{
    let start = whitespace_end(graphemes, cursor);
    let after = next_cursor(graphemes, raw, cursor);
    let skipped = raw.spec_bytes().subrange(
        boundary(graphemes, raw, cursor),
        boundary(graphemes, raw, start),
    );
    match next_item(graphemes, raw, cursor) {
        Some(Ok((from, _, to))) if cursor < after <= graphemes.len() => skipped
            + raw.spec_bytes().subrange(from, to) + reassembled(graphemes, raw, after),
        _ => skipped,
    }
}

/// Token coverage: where tokenizing meets no lexical error, the slices of the
/// tokens, interleaved with the whitespace skipped before each and after the
/// last, spell the source text from the cursor to its end.
pub proof fn lemma_tokens_cover_text(graphemes: Seq<Grapheme<'_>>, raw: &str, cursor: int)
    requires
        is_segmentation(graphemes, raw),
        0 <= cursor <= graphemes.len(),
        free_of_errors(items_from(graphemes, raw, cursor)),
    ensures
        reassembled(graphemes, raw, cursor) == raw.spec_bytes().subrange(
            boundary(graphemes, raw, cursor),
            raw.spec_bytes().len() as int,
        ),
        cursor == 0 ==> reassembled(graphemes, raw, cursor) == raw.spec_bytes(),
    decreases graphemes.len() - cursor,
{
    let bytes = raw.spec_bytes();
    let start = whitespace_end(graphemes, cursor);
    let after = next_cursor(graphemes, raw, cursor);
    lemma_scan(graphemes, cursor, whitespace_stop());
    lemma_next_advances(graphemes, raw, cursor);
    lemma_boundaries_increase(graphemes, raw, cursor, start);
    let items = items_from(graphemes, raw, cursor);
    match next_item(graphemes, raw, cursor) {
        Some(Ok((from, _, to))) => {
            lemma_token_spans_cursor(graphemes, raw, start);
            lemma_boundaries_increase(graphemes, raw, start, after);
            let rest = items_from(graphemes, raw, after);
            assert forall|i: int| 0 <= i < rest.len() implies (#[trigger] rest[i]) is Ok by {
                assert(items[i + 1] == rest[i]);
            }
            lemma_tokens_cover_text(graphemes, raw, after);
            assert(reassembled(graphemes, raw, cursor) =~= bytes.subrange(
                boundary(graphemes, raw, cursor),
                bytes.len() as int,
            ));
        },
        Some(Err(_)) => {
            assert(items[0] is Err);
        },
        None => {},
    }
    if cursor == 0 {
        assert(bytes.subrange(0, bytes.len() as int) =~= bytes);
    }
}

/// The tokenizer: a cursor over the graphemes of a source text. Each pull
/// skips whitespace and yields the next token; the first lexical error ends
/// the sequence.
pub struct Lexer<'inp> {
    raw: &'inp str,
    graphemes: Vec<Grapheme<'inp>>,
    curr_idx: usize,
    halted: bool,
}

impl<'inp> Lexer<'inp> {
    #[verifier::type_invariant]
    spec fn inv(&self) -> bool {
        is_segmentation(self.graphemes@, self.raw) && self.curr_idx <= self.graphemes@.len()
    }

    /// The source text.
    pub closed spec fn source(&self) -> &'inp str {
        self.raw
    }

    /// The graphemes of the source text.
    pub closed spec fn graphemes(&self) -> Seq<Grapheme<'inp>> {
        self.graphemes@
    }

    /// Index of the grapheme at which the next pull starts.
    pub closed spec fn cursor(&self) -> int {
        self.curr_idx as int
    }

    /// Whether a lexical error has ended the sequence.
    pub closed spec fn halted(&self) -> bool {
        self.halted
    }

    /// A tokenizer at the start of `raw`.
    pub fn new(raw: &'inp str) -> (lexer: Self)
        ensures
            lexer.source() == raw,
            is_segmentation(lexer.graphemes(), raw),
            cluster_texts(lexer.graphemes()) == grapheme_clusters(raw@),
            lexer.cursor() == 0,
            !lexer.halted(),
    {
        let graphemes = segment(raw);
        Lexer { raw, curr_idx: 0, graphemes, halted: false }
    }

    /// Pulls the next item: skips whitespace, then runs the matcher chain.
    /// After a lexical error every pull yields nothing.
    pub fn next(&mut self) -> (item: Option<LexerResult<'inp>>)
        ensures
            final(self).source() == old(self).source(),
            final(self).graphemes() == old(self).graphemes(),
            is_segmentation(old(self).graphemes(), old(self).source()),
            0 <= old(self).cursor() <= old(self).graphemes().len(),
            old(self).halted() ==> item is None && final(self).cursor() == old(self).cursor()
                && final(self).halted(),
            !old(self).halted() ==> {
                &&& item_view(item) == next_item(
                    old(self).graphemes(),
                    old(self).source(),
                    old(self).cursor(),
                )
                &&& final(self).cursor() == next_cursor(
                    old(self).graphemes(),
                    old(self).source(),
                    old(self).cursor(),
                )
                &&& final(self).halted() == (item matches Some(Err(_)))
            },
            item matches Some(Ok((from, _, to))) ==> from < to <= old(
                self,
            ).source().spec_bytes().len(),
    {
        proof {
            use_type_invariant(&*self);
        }
        if self.halted {
            return None;
        }
        let total: usize = self.graphemes.len();
        let skipped: usize = peek_whitespace(self.graphemes.as_slice(), self.curr_idx, self.raw);
        proof {
            lemma_scan(self.graphemes@, self.curr_idx as int, whitespace_stop());
        }
        self.curr_idx += skipped;
        if self.curr_idx >= total {
            return None;
        }
        proof {
            lemma_token_spans_cursor(self.graphemes@, self.raw, self.curr_idx as int);
            lemma_next_advances(self.graphemes@, self.raw, old(self).curr_idx as int);
        }
        match peek_token(self.graphemes.as_slice(), self.curr_idx, self.raw) {
            Some(Ok(peeked)) => {
                self.curr_idx += peeked.count_consumed_graphemes;
                Some(LexerResult::from(peeked))
            },
            Some(Err(error)) => {
                self.halted = true;
                Some(Err(error))
            },
            None => {
                let grapheme = self.graphemes[self.curr_idx];
                self.halted = true;
                Some(
                    Err(
                        LexicalError::UnrecognizedToken {
                            src: self.raw,
                            span: SourceSpan::new(grapheme.0, 1),
                            char: grapheme.1,
                        },
                    ),
                )
            },
        }
    }

    /// Pulls until the sequence ends and gathers what was yielded.
    pub fn collect(self) -> (items: Vec<LexerResult<'inp>>)
        ensures
            self.halted() ==> items@.len() == 0,
            !self.halted() ==> items_view(items@) == items_from(
                self.graphemes(),
                self.source(),
                self.cursor(),
            ),
    {
        let ghost graphemes = self.graphemes();
        let ghost raw = self.source();
        let ghost first = self.cursor();
        let ghost was_halted = self.halted();
        let mut lexer = self;
        let mut items: Vec<LexerResult<'inp>> = Vec::new();
        loop
            invariant
                lexer.graphemes() == graphemes,
                lexer.source() == raw,
                was_halted ==> lexer.halted() && items@.len() == 0,
                !was_halted ==> items_from(graphemes, raw, first) == items_view(items@) + (
                if lexer.halted() {
                    Seq::empty()
                } else {
                    items_from(graphemes, raw, lexer.cursor())
                }),
            ensures
                was_halted ==> items@.len() == 0,
                !was_halted ==> items_view(items@) == items_from(graphemes, raw, first),
            decreases graphemes.len() - lexer.cursor() + (if lexer.halted() { 0int } else { 1int }),
        {
            let ghost before = lexer.cursor();
            let ghost earlier = items@;
            let pulled = lexer.next();
            proof {
                lemma_next_advances(graphemes, raw, before);
            }
            match pulled {
                None => {
                    break ;
                },
                Some(item) => {
                    items.push(item);
                    assert(items_view(items@) =~= items_view(earlier) + seq![
                        lexer_result_view(item),
                    ]);
                },
            }
        }
        items
    }
}

} // verus!
