//! Byte-level reasoning about UTF-8 text: comparing string slices and cutting
//! sub-slices out of a source buffer at known character boundaries.

use vstd::prelude::*;
use vstd::string::StringSliceAdditionalSpecFns;
use vstd::utf8::*;

verus! {

/// The text encoded by the bytes `from..to` of `raw`.
pub open spec fn text_between(raw: &str, from: int, to: int) -> Seq<char> {
    decode_utf8(raw.spec_bytes().subrange(from, to))
}

/// Length of a string slice in bytes.
pub fn byte_len(raw: &str) -> (length: usize)
    ensures
        length == raw.spec_bytes().len(),
{
    raw.as_bytes().len()
}

/// A string slice is determined by its bytes.
pub proof fn lemma_bytes_determine_text(a: &str, b: &str)
    ensures
        a.spec_bytes() == b.spec_bytes() <==> a@ == b@,
{
    broadcast use encode_utf8_decode_utf8;

    if a.spec_bytes() == b.spec_bytes() {
        assert(decode_utf8(encode_utf8(a@)) == a@);
        assert(decode_utf8(encode_utf8(b@)) == b@);
    }
}

/// Whether two string slices hold the same text.
pub fn str_eq(a: &str, b: &str) -> (same: bool)
    ensures
        same == (a@ == b@),
{
    let left = a.as_bytes();
    let right = b.as_bytes();
    proof {
        lemma_bytes_determine_text(a, b);
    }
    if left.len() != right.len() {
        return false;
    }
    let mut i: usize = 0;
    while i < left.len()
        invariant
            i <= left.len(),
            left.len() == right.len(),
            left@ == a.spec_bytes(),
            right@ == b.spec_bytes(),
            a.spec_bytes() == b.spec_bytes() <==> a@ == b@,
            forall|k: int| 0 <= k < i ==> left@[k] == right@[k],
        decreases left.len() - i,
    {
        if left[i] != right[i] {
            return false;
        }
        i += 1;
    }
    assert(left@ =~= right@);
    true
}

/// Whether `piece` stands in `bytes` at offset `at`.
pub fn holds_at(bytes: &[u8], at: usize, piece: &[u8]) -> (held: bool)
    requires
        at + piece@.len() <= bytes@.len(),
    ensures
        held == (bytes@.subrange(at as int, at + piece@.len()) == piece@),
{
    let total: usize = bytes.len();
    let mut i: usize = 0;
    while i < piece.len()
        invariant
            i <= piece@.len(),
            total == bytes@.len(),
            at + piece@.len() <= bytes@.len(),
            forall|k: int| 0 <= k < i ==> bytes@[at + k] == piece@[k],
        decreases piece@.len() - i,
    {
        if bytes[at + i] != piece[i] {
            assert(bytes@.subrange(at as int, at + piece@.len())[i as int] != piece@[i as int]);
            return false;
        }
        i += 1;
    }
    assert(bytes@.subrange(at as int, at + piece@.len()) =~= piece@);
    true
}

/// An offset into valid UTF-8 that holds the first byte of a scalar, or that
/// is the length of the text, is a character boundary.
pub proof fn lemma_leading_byte_is_boundary(bytes: Seq<u8>, at: int)
    requires
        valid_utf8(bytes),
        0 <= at <= bytes.len(),
        at < bytes.len() ==> !is_continuation_byte(bytes[at]),
    ensures
        is_char_boundary(bytes, at),
{
    if at < bytes.len() {
        is_char_boundary_iff_not_is_continuation_byte(bytes, at);
    } else {
        is_char_boundary_start_end_of_seq(bytes);
    }
}

/// The sub-slice of `raw` between two character boundaries.
pub fn slice<'a>(raw: &'a str, from: usize, to: usize) -> (part: &'a str)
    requires
        from <= to <= raw.spec_bytes().len(),
        is_char_boundary(raw.spec_bytes(), from as int),
        is_char_boundary(raw.spec_bytes(), to as int),
    ensures
        part.spec_bytes() == raw.spec_bytes().subrange(from as int, to as int),
        part@ == text_between(raw, from as int, to as int),
{
    broadcast use {encode_utf8_valid_utf8, encode_utf8_decode_utf8};

    let (head, _) = raw.split_at(to);
    proof {
        let bytes = raw.spec_bytes();
        let cut = head.spec_bytes();
        assert(valid_utf8(cut));
        if (from as int) < to as int {
            is_char_boundary_iff_not_is_continuation_byte(bytes, from as int);
            assert(cut[from as int] == bytes[from as int]);
        }
        lemma_leading_byte_is_boundary(cut, from as int);
    }
    let (_, part) = head.split_at(from);
    proof {
        assert(part.spec_bytes() =~= raw.spec_bytes().subrange(from as int, to as int));
        assert(decode_utf8(encode_utf8(part@)) == part@);
    }
    part
}

} // verus!
