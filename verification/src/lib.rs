//! Front end for the yuck configuration language: a grapheme-aware tokenizer
//! and the span-annotated, error-tolerant syntax model that sits on top of it.

use ast::top_level_expr::TopLevelExpr;
use ast::ParseError;
use lexer::LexicalError;
use spanned::Spanned;
use vstd::prelude::*;

pub mod ast;
pub mod lexer;
pub mod spanned;
pub mod text;

verus! {

/// How a run of the grammar engine over a token sequence ended.
#[derive(Debug, PartialEq)]
pub enum EngineOutcome<'inp> {
    /// The engine reduced the whole sequence to top-level nodes, placeholders
    /// included.
    Nodes(Vec<Spanned<TopLevelExpr>>),
    /// The token sequence ended in a lexical error.
    Lexical(LexicalError<'inp>),
    /// The engine gave up on the sequence for a reason of its own.
    Rejected,
}

/// The result of a parse, from the outcome of the grammar engine and the
/// diagnostics it recorded on the way. A lexical error is the only failure:
/// it comes back alone, without a tree. Nodes come back together with every
/// diagnostic, in the order recorded. When the engine gives up, the tree is
/// empty and the diagnostics recorded so far are kept.
pub fn parse_top_level<'inp>(
    outcome: EngineOutcome<'inp>,
    errs: Vec<ParseError>,
) -> (parsed: Result<(Vec<Spanned<TopLevelExpr>>, Vec<ParseError>), LexicalError<'inp>>)
    ensures
        match outcome {
            EngineOutcome::Nodes(nodes) => parsed == Ok::<_, LexicalError<'inp>>((nodes, errs)),
            EngineOutcome::Lexical(error) => parsed == Err::<
                (Vec<Spanned<TopLevelExpr>>, Vec<ParseError>),
                _,
            >(error),
            EngineOutcome::Rejected => parsed matches Ok((nodes, diagnostics)) && nodes@.len() == 0
                && diagnostics == errs,
        },
{
    match outcome {
        EngineOutcome::Nodes(nodes) => Ok((nodes, errs)),
        EngineOutcome::Lexical(error) => Err(error),
        EngineOutcome::Rejected => Ok((Vec::new(), errs)),
    }
}

} // verus!
