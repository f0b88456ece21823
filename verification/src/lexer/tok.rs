//! The tokens the lexer hands to syntax analysis.

use vstd::prelude::*;

verus! {

/// One lexical unit. Literals and comments borrow the matched slice from the
/// source text.
#[derive(Debug, Clone, PartialEq, PartialOrd)]
pub enum Tok<'inp> {
    Comment(&'inp str),
    DelimiterComma,
    DelimiterLeftBracket,
    DelimiterLeftParen,
    DelimiterRightBracket,
    DelimiterRightParen,
    KeywordDefListen,
    KeywordDefPoll,
    KeywordDefVar,
    KeywordDefWidget,
    KeywordDefWindow,
    KeywordFalse,
    KeywordInclude,
    KeywordLiteral,
    KeywordTrue,
    LiteralNumber(&'inp str),
    LiteralString(&'inp str),
    LiteralSymbol(&'inp str),
    OperatorComparisonEqual,
    OperatorComparisonGreaterThan,
    OperatorComparisonGreaterThanOrEquals,
    OperatorComparisonLessThan,
    OperatorComparisonLessThanOrEquals,
    OperatorComparisonNotEqual,
    OperatorLogicalAnd,
    OperatorLogicalNot,
    OperatorLogicalOr,
    OperatorMathAddition,
    OperatorMathDivision,
    OperatorMathModulo,
    OperatorMathMultiplication,
    OperatorMathSubtraction,
    PunctuationColon,
    PunctuationQuestionMark,
}

/// What a token is, with the text of its payload in place of the borrowed
/// slice.
pub enum TokView {
    Comment(Seq<char>),
    DelimiterComma,
    DelimiterLeftBracket,
    DelimiterLeftParen,
    DelimiterRightBracket,
    DelimiterRightParen,
    KeywordDefListen,
    KeywordDefPoll,
    KeywordDefVar,
    KeywordDefWidget,
    KeywordDefWindow,
    KeywordFalse,
    KeywordInclude,
    KeywordLiteral,
    KeywordTrue,
    LiteralNumber(Seq<char>),
    LiteralString(Seq<char>),
    LiteralSymbol(Seq<char>),
    OperatorComparisonEqual,
    OperatorComparisonGreaterThan,
    OperatorComparisonGreaterThanOrEquals,
    OperatorComparisonLessThan,
    OperatorComparisonLessThanOrEquals,
    OperatorComparisonNotEqual,
    OperatorLogicalAnd,
    OperatorLogicalNot,
    OperatorLogicalOr,
    OperatorMathAddition,
    OperatorMathDivision,
    OperatorMathModulo,
    OperatorMathMultiplication,
    OperatorMathSubtraction,
    PunctuationColon,
    PunctuationQuestionMark,
}

impl<'inp> View for Tok<'inp> {
    type V = TokView;

    open spec fn view(&self) -> TokView {
        match *self {
            Tok::Comment(body) => TokView::Comment(body@),
            Tok::DelimiterComma => TokView::DelimiterComma,
            Tok::DelimiterLeftBracket => TokView::DelimiterLeftBracket,
            Tok::DelimiterLeftParen => TokView::DelimiterLeftParen,
            Tok::DelimiterRightBracket => TokView::DelimiterRightBracket,
            Tok::DelimiterRightParen => TokView::DelimiterRightParen,
            Tok::KeywordDefListen => TokView::KeywordDefListen,
            Tok::KeywordDefPoll => TokView::KeywordDefPoll,
            Tok::KeywordDefVar => TokView::KeywordDefVar,
            Tok::KeywordDefWidget => TokView::KeywordDefWidget,
            Tok::KeywordDefWindow => TokView::KeywordDefWindow,
            Tok::KeywordFalse => TokView::KeywordFalse,
            Tok::KeywordInclude => TokView::KeywordInclude,
            Tok::KeywordLiteral => TokView::KeywordLiteral,
            Tok::KeywordTrue => TokView::KeywordTrue,
            Tok::LiteralNumber(digits) => TokView::LiteralNumber(digits@),
            Tok::LiteralString(value) => TokView::LiteralString(value@),
            Tok::LiteralSymbol(name) => TokView::LiteralSymbol(name@),
            Tok::OperatorComparisonEqual => TokView::OperatorComparisonEqual,
            Tok::OperatorComparisonGreaterThan => TokView::OperatorComparisonGreaterThan,
            Tok::OperatorComparisonGreaterThanOrEquals => {
                TokView::OperatorComparisonGreaterThanOrEquals
            },
            Tok::OperatorComparisonLessThan => TokView::OperatorComparisonLessThan,
            Tok::OperatorComparisonLessThanOrEquals => TokView::OperatorComparisonLessThanOrEquals,
            Tok::OperatorComparisonNotEqual => TokView::OperatorComparisonNotEqual,
            Tok::OperatorLogicalAnd => TokView::OperatorLogicalAnd,
            Tok::OperatorLogicalNot => TokView::OperatorLogicalNot,
            Tok::OperatorLogicalOr => TokView::OperatorLogicalOr,
            Tok::OperatorMathAddition => TokView::OperatorMathAddition,
            Tok::OperatorMathDivision => TokView::OperatorMathDivision,
            Tok::OperatorMathModulo => TokView::OperatorMathModulo,
            Tok::OperatorMathMultiplication => TokView::OperatorMathMultiplication,
            Tok::OperatorMathSubtraction => TokView::OperatorMathSubtraction,
            Tok::PunctuationColon => TokView::PunctuationColon,
            Tok::PunctuationQuestionMark => TokView::PunctuationQuestionMark,
        }
    }
}

} // verus!
