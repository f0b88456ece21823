//! The lexical errors: the failures that end a token sequence.

use crate::spanned::SourceSpan;
use vstd::prelude::*;

verus! {

/// A failure of the tokenizer. Either one ends the token sequence.
#[derive(Clone, Debug, PartialEq, PartialOrd, Eq)]
pub enum LexicalError<'inp> {
    /// No matcher accepts the grapheme `char` found at the start of `span`.
    UnrecognizedToken { src: &'inp str, span: SourceSpan, char: &'inp str },
    /// A string literal opens at the start of `span` and is never closed.
    UnterminatedLiteralString { src: &'inp str, span: SourceSpan },
}

/// A lexical error, with texts in place of borrowed slices.
pub enum LexicalErrorView {
    UnrecognizedToken { src: Seq<char>, span: SourceSpan, char: Seq<char> },
    UnterminatedLiteralString { src: Seq<char>, span: SourceSpan },
}

impl<'inp> View for LexicalError<'inp> {
    type V = LexicalErrorView;

    open spec fn view(&self) -> LexicalErrorView {
        match *self {
            LexicalError::UnrecognizedToken { src, span, char } => {
                LexicalErrorView::UnrecognizedToken { src: src@, span, char: char@ }
            },
            LexicalError::UnterminatedLiteralString { src, span } => {
                LexicalErrorView::UnterminatedLiteralString { src: src@, span }
            },
        }
    }
}

impl LexicalErrorView {
    /// The source text the error was found in.
    pub open spec fn src(self) -> Seq<char> {
        match self {
            LexicalErrorView::UnrecognizedToken { src, .. } => src,
            LexicalErrorView::UnterminatedLiteralString { src, .. } => src,
        }
    }

    /// The region of the source text the error points at.
    pub open spec fn span(self) -> SourceSpan {
        match self {
            LexicalErrorView::UnrecognizedToken { span, .. } => span,
            LexicalErrorView::UnterminatedLiteralString { span, .. } => span,
        }
    }
}

impl<'inp> LexicalError<'inp> {
    /// The source text the error was found in.
    pub fn src(&self) -> (src: &str)
        ensures
            src@ == self@.src(),
    {
        match self {
            LexicalError::UnrecognizedToken { src, .. } => src,
            LexicalError::UnterminatedLiteralString { src, .. } => src,
        }
    }

    /// The region of the source text the error points at.
    pub fn span(&self) -> (span: &SourceSpan)
        ensures
            *span == self@.span(),
    {
        match self {
            LexicalError::UnrecognizedToken { span, .. } => span,
            LexicalError::UnterminatedLiteralString { span, .. } => span,
        }
    }

    /// A one-line description of the kind of error.
    pub fn message(&self) -> (message: &'static str)
        ensures
            self is UnrecognizedToken ==> message@ == "Unrecognized token"@,
            self is UnterminatedLiteralString ==> message@ == "Unterminated string literal"@,
    {
        match self {
            LexicalError::UnrecognizedToken { .. } => "Unrecognized token",
            LexicalError::UnterminatedLiteralString { .. } => "Unterminated string literal",
        }
    }
}

} // verus!
