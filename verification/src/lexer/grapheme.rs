//! The grapheme source: the extended grapheme clusters of a text with their
//! byte offsets, and what it means for them to cut the text into pieces.

use crate::text::{holds_at, lemma_leading_byte_is_boundary, text_between};
use unicode_segmentation::UnicodeSegmentation;
use vstd::prelude::*;
use vstd::string::StringSliceAdditionalSpecFns;
use vstd::utf8::*;

verus! {

/// One extended grapheme cluster of the source text, with the byte offset at
/// which it starts.
pub type Grapheme<'inp> = (usize, &'inp str);

/// Byte offset one past the last byte of a grapheme.
pub open spec fn grapheme_end(grapheme: Grapheme<'_>) -> int {
    grapheme.0 + grapheme.1.spec_bytes().len()
}

/// Byte offset at which the `i`-th grapheme starts; for `i` past the last
/// grapheme, the length of the source text.
pub open spec fn boundary(graphemes: Seq<Grapheme<'_>>, raw: &str, i: int) -> int {
    if 0 <= i < graphemes.len() {
        graphemes[i].0 as int
    } else {
        raw.spec_bytes().len() as int
    }
}

/// The text of the `i`-th grapheme; the empty text where there is none.
pub open spec fn grapheme_text(graphemes: Seq<Grapheme<'_>>, i: int) -> Seq<char> {
    if 0 <= i < graphemes.len() {
        graphemes[i].1@
    } else {
        Seq::empty()
    }
}

/// The graphemes cut `raw` into consecutive, non-empty pieces: the first
/// starts at offset zero, each one ends where the next one starts, the last
/// one ends with the text, and each slice holds the bytes of `raw` at its
/// offset.
pub open spec fn is_segmentation(graphemes: Seq<Grapheme<'_>>, raw: &str) -> bool {
    let bytes = raw.spec_bytes();
    &&& if graphemes.len() == 0 {
        bytes.len() == 0
    } else {
        graphemes[0].0 == 0 && grapheme_end(graphemes.last()) == bytes.len()
    }
    &&& forall|i: int|
        0 <= i < graphemes.len() ==> {
            &&& (#[trigger] graphemes[i]).1.spec_bytes().len() > 0
            &&& grapheme_end(graphemes[i]) <= bytes.len()
            &&& graphemes[i].1.spec_bytes() == bytes.subrange(
                graphemes[i].0 as int,
                grapheme_end(graphemes[i]),
            )
        }
    &&& forall|i: int, j: int|
        0 <= i && j == i + 1 && j < graphemes.len() ==> grapheme_end(#[trigger] graphemes[i]) == (
        #[trigger] graphemes[j]).0
}

/// Whether the graphemes cut `raw` into consecutive, non-empty pieces.
pub fn is_segmentation_of(graphemes: &[Grapheme<'_>], raw: &str) -> (ok: bool)
    ensures
        ok == is_segmentation(graphemes@, raw),
{
    let bytes = raw.as_bytes();
    let mut at: usize = 0;
    let mut i: usize = 0;
    while i < graphemes.len()
        invariant
            bytes@ == raw.spec_bytes(),
            i <= graphemes@.len(),
            at <= bytes@.len(),
            at == (if i == 0 {
                0
            } else {
                grapheme_end(graphemes@[i - 1])
            }),
            i > 0 ==> graphemes@[0].0 == 0,
            forall|k: int|
                0 <= k < i ==> {
                    &&& (#[trigger] graphemes@[k]).1.spec_bytes().len() > 0
                    &&& grapheme_end(graphemes@[k]) <= bytes@.len()
                    &&& graphemes@[k].1.spec_bytes() == bytes@.subrange(
                        graphemes@[k].0 as int,
                        grapheme_end(graphemes@[k]),
                    )
                },
            forall|k: int, j: int|
                0 <= k && j == k + 1 && j < i ==> grapheme_end(#[trigger] graphemes@[k]) == (
                #[trigger] graphemes@[j]).0,
        decreases graphemes@.len() - i,
    {
        let offset: usize = graphemes[i].0;
        let piece = graphemes[i].1.as_bytes();
        if offset != at {
            proof {
                if i > 0 {
                    let _ = graphemes@[i - 1];
                }
            }
            return false;
        }
        if piece.len() == 0 || piece.len() > bytes.len() - at {
            return false;
        }
        if !holds_at(bytes, at, piece) {
            return false;
        }
        at += piece.len();
        i += 1;
    }
    proof {
        if i > 0 {
            let _ = graphemes@[i - 1];
        }
    }
    at == bytes.len()
}

/// In a segmentation, a grapheme ends at the boundary that follows it.
pub proof fn lemma_grapheme_end(graphemes: Seq<Grapheme<'_>>, raw: &str, i: int)
    requires
        is_segmentation(graphemes, raw),
        0 <= i < graphemes.len(),
    ensures
        graphemes[i].1.spec_bytes().len() > 0,
        grapheme_end(graphemes[i]) == boundary(graphemes, raw, i + 1),
        graphemes[i].1.spec_bytes() == raw.spec_bytes().subrange(
            boundary(graphemes, raw, i),
            boundary(graphemes, raw, i + 1),
        ),
{
    if i + 1 < graphemes.len() {
        let _ = graphemes[i + 1];
    }
}

/// In a segmentation, boundaries grow strictly with the grapheme index.
pub proof fn lemma_boundaries_ordered(graphemes: Seq<Grapheme<'_>>, raw: &str, i: int, j: int)
    requires
        is_segmentation(graphemes, raw),
        0 <= i <= j <= graphemes.len(),
    ensures
        boundary(graphemes, raw, i) <= boundary(graphemes, raw, j),
        i < j ==> boundary(graphemes, raw, i) < boundary(graphemes, raw, j),
    decreases j - i,
{
    if i < j {
        lemma_grapheme_end(graphemes, raw, i);
        lemma_boundaries_ordered(graphemes, raw, i + 1, j);
    }
}

/// In a segmentation, boundaries grow strictly with the grapheme index and
/// never pass the end of the text.
pub proof fn lemma_boundaries_increase(graphemes: Seq<Grapheme<'_>>, raw: &str, i: int, j: int)
    requires
        is_segmentation(graphemes, raw),
        0 <= i <= j <= graphemes.len(),
    ensures
        0 <= boundary(graphemes, raw, i) <= boundary(graphemes, raw, j) <= raw.spec_bytes().len(),
        i < j ==> boundary(graphemes, raw, i) < boundary(graphemes, raw, j),
{
    lemma_boundaries_ordered(graphemes, raw, i, j);
    lemma_boundaries_ordered(graphemes, raw, j, graphemes.len() as int);
}

/// In a segmentation, every boundary is a character boundary of the text.
pub proof fn lemma_boundary_is_char_boundary(graphemes: Seq<Grapheme<'_>>, raw: &str, i: int)
    requires
        is_segmentation(graphemes, raw),
        0 <= i <= graphemes.len(),
    ensures
        is_char_boundary(raw.spec_bytes(), boundary(graphemes, raw, i)),
{
    broadcast use encode_utf8_valid_utf8;

    let bytes = raw.spec_bytes();
    if i < graphemes.len() {
        let piece = graphemes[i].1.spec_bytes();
        lemma_grapheme_end(graphemes, raw, i);
        lemma_boundaries_increase(graphemes, raw, i, i + 1);
        assert(is_char_boundary(piece, 0));
        is_char_boundary_iff_not_is_continuation_byte(piece, 0);
        assert(piece[0] == bytes[graphemes[i].0 as int]);
        is_char_boundary_iff_not_is_continuation_byte(bytes, graphemes[i].0 as int);
    } else {
        is_char_boundary_start_end_of_seq(bytes);
    }
}

/// In a segmentation, the text of a grapheme is the text of the source
/// between the boundaries around it.
pub proof fn lemma_grapheme_text(graphemes: Seq<Grapheme<'_>>, raw: &str, i: int)
    requires
        is_segmentation(graphemes, raw),
        0 <= i < graphemes.len(),
    ensures
        graphemes[i].1@ == text_between(
            raw,
            boundary(graphemes, raw, i),
            boundary(graphemes, raw, i + 1),
        ),
{
    broadcast use encode_utf8_decode_utf8;

    lemma_grapheme_end(graphemes, raw, i);
    assert(decode_utf8(encode_utf8(graphemes[i].1@)) == graphemes[i].1@);
}

/// Whether a scalar value has the Unicode `White_Space` property.
pub uninterp spec fn white_space(c: char) -> bool;

/// `char::is_whitespace` of the standard library: it tells whether the scalar
/// value has the `White_Space` property; the property itself is left
/// unspecified here.
pub assume_specification[ char::is_whitespace ](c: char) -> (white: bool)
    ensures
        white == white_space(c),
;

/// A text is whitespace when every scalar value in it is.
pub open spec fn is_whitespace_text(text: Seq<char>) -> bool {
    forall|i: int| 0 <= i < text.len() ==> white_space(#[trigger] text[i])
}

/// Whether a grapheme consists of whitespace only.
pub fn grapheme_is_whitespace(grapheme: &Grapheme<'_>) -> (white: bool)
    ensures
        white == is_whitespace_text(grapheme.1@),
{
    let text = grapheme.1;
    let mut white = true;
    for c in it: text.chars()
        invariant
            it.seq() == text@,
            white == (forall|k: int| 0 <= k < it.index() ==> white_space(#[trigger] text@[k])),
    {
        white = white && c.is_whitespace();
    }
    white
}

/// The extended grapheme clusters of a text, in order: the text of each
/// cluster as the Unicode text segmentation rules cut it.
pub uninterp spec fn grapheme_clusters(text: Seq<char>) -> Seq<Seq<char>>;

/// The texts of the graphemes, in order.
pub open spec fn cluster_texts(graphemes: Seq<Grapheme<'_>>) -> Seq<Seq<char>> {
    Seq::new(graphemes.len(), |i: int| graphemes[i].1@)
}

/// `UnicodeSegmentation::grapheme_indices` of the crate unicode-segmentation,
/// asked for extended grapheme clusters and collected. The iterator walks the
/// text from its first byte to its last and yields each cluster as a
/// non-empty slice of the text together with the offset of that slice, each
/// slice starting where the one before ended. Which clusters it cuts is left
/// to `grapheme_clusters`.
#[verifier::external_body]
fn grapheme_indices<'inp>(raw: &'inp str) -> (graphemes: Vec<Grapheme<'inp>>)
    ensures
        is_segmentation(graphemes@, raw),
        cluster_texts(graphemes@) == grapheme_clusters(raw@),
{
    raw.grapheme_indices(true).collect()
}

/// The grapheme source: the extended grapheme clusters of `raw`, each with
/// the byte offset at which it starts. Put one after the other, the slices
/// spell `raw`.
pub fn segment<'inp>(raw: &'inp str) -> (graphemes: Vec<Grapheme<'inp>>)
    ensures
        is_segmentation(graphemes@, raw),
        cluster_texts(graphemes@) == grapheme_clusters(raw@),
        joined(graphemes@, graphemes@.len() as int) == raw.spec_bytes(),
        joined_text(graphemes@, graphemes@.len() as int) == raw@,
{
    let graphemes = grapheme_indices(raw);
    proof {
        lemma_graphemes_cover_text(graphemes@, raw);
    }
    graphemes
}

/// The bytes of the first `n` graphemes, one slice after the other.
pub open spec fn joined(graphemes: Seq<Grapheme<'_>>, n: int) -> Seq<u8>
    decreases n,
{
    if n <= 0 {
        Seq::empty()
    } else {
        joined(graphemes, n - 1) + graphemes[n - 1].1.spec_bytes()
    }
}

proof fn lemma_joined_prefix(graphemes: Seq<Grapheme<'_>>, raw: &str, n: int)
    requires
        is_segmentation(graphemes, raw),
        0 <= n <= graphemes.len(),
    ensures
        joined(graphemes, n) == raw.spec_bytes().subrange(0, boundary(graphemes, raw, n)),
    decreases n,
{
    if n > 0 {
        lemma_joined_prefix(graphemes, raw, n - 1);
        lemma_grapheme_end(graphemes, raw, n - 1);
        lemma_boundaries_increase(graphemes, raw, n - 1, n);
    }
    assert(joined(graphemes, n) =~= raw.spec_bytes().subrange(0, boundary(graphemes, raw, n)));
}

/// The texts of the first `n` graphemes, one after the other.
pub open spec fn joined_text(graphemes: Seq<Grapheme<'_>>, n: int) -> Seq<char>
    decreases n,
{
    if n <= 0 {
        Seq::empty()
    } else {
        joined_text(graphemes, n - 1) + graphemes[n - 1].1@
    }
}

proof fn lemma_joined_text_prefix(graphemes: Seq<Grapheme<'_>>, raw: &str, n: int)
    requires
        is_segmentation(graphemes, raw),
        0 <= n <= graphemes.len(),
    ensures
        joined_text(graphemes, n) == text_between(raw, 0, boundary(graphemes, raw, n)),
    decreases n,
{
    broadcast use {encode_utf8_valid_utf8, encode_utf8_decode_utf8};

    let bytes = raw.spec_bytes();
    let end = boundary(graphemes, raw, n);
    let prefix = bytes.subrange(0, end);
    if n > 0 {
        let start = boundary(graphemes, raw, n - 1);
        lemma_joined_text_prefix(graphemes, raw, n - 1);
        lemma_grapheme_text(graphemes, raw, n - 1);
        lemma_boundaries_increase(graphemes, raw, n - 1, n);
        lemma_boundary_is_char_boundary(graphemes, raw, n - 1);
        lemma_boundary_is_char_boundary(graphemes, raw, n);
        valid_utf8_split(bytes, end);
        is_char_boundary_iff_not_is_continuation_byte(bytes, start);
        assert(prefix[start] == bytes[start]);
        lemma_leading_byte_is_boundary(prefix, start);
        decode_utf8_split(prefix, start);
        assert(prefix.subrange(0, start) =~= bytes.subrange(0, start));
        assert(prefix.subrange(start, prefix.len() as int) =~= bytes.subrange(start, end));
    } else {
        assert(prefix =~= Seq::<u8>::empty());
    }
}

/// Grapheme coverage: the slices of a segmentation, put one after the other,
/// spell the source text, and their offsets grow strictly, so that no byte
/// is left out and none belongs to two graphemes.
pub proof fn lemma_graphemes_cover_text(graphemes: Seq<Grapheme<'_>>, raw: &str)
    requires
        is_segmentation(graphemes, raw),
    ensures
        joined(graphemes, graphemes.len() as int) == raw.spec_bytes(),
        joined_text(graphemes, graphemes.len() as int) == raw@,
        forall|i: int, j: int|
            0 <= i < j < graphemes.len() ==> grapheme_end(#[trigger] graphemes[i]) <= (
            #[trigger] graphemes[j]).0,
        forall|i: int, j: int|
            0 <= i < j < graphemes.len() ==> (#[trigger] graphemes[i]).0 < (
            #[trigger] graphemes[j]).0,
{
    let bytes = raw.spec_bytes();
    lemma_joined_prefix(graphemes, raw, graphemes.len() as int);
    lemma_joined_text_prefix(graphemes, raw, graphemes.len() as int);
    assert(bytes.subrange(0, bytes.len() as int) =~= bytes);
    assert(decode_utf8(encode_utf8(raw@)) == raw@) by {
        encode_utf8_decode_utf8(raw@);
    }
    assert forall|i: int, j: int| 0 <= i < j < graphemes.len() implies grapheme_end(
        #[trigger] graphemes[i],
    ) <= (#[trigger] graphemes[j]).0 && graphemes[i].0 < graphemes[j].0 by {
        lemma_grapheme_end(graphemes, raw, i);
        lemma_boundaries_ordered(graphemes, raw, i, i + 1);
        lemma_boundaries_ordered(graphemes, raw, i + 1, j);
    }
}

} // verus!
