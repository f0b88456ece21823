use crate::spanned::SourceSpan;
use vstd::prelude::*;

verus! {

/// A recoverable syntax error: what was expected, and the region of the
/// source text where it was missing.
#[derive(Clone, Debug, PartialEq)]
pub enum ParseError {
    /// A token stands where no construct can start or go on.
    UnexpectedToken { err_span: SourceSpan },
    /// A listened variable has no name.
    ExpectedDefListenName { err_span: SourceSpan },
    /// A listened variable has no script.
    ExpectedDefListenScript { err_span: SourceSpan },
    /// A polled variable has no name.
    ExpectedDefPollName { err_span: SourceSpan },
    /// A polled variable has no script.
    ExpectedDefPollScript { err_span: SourceSpan },
    /// A variable has no name.
    ExpectedDefVarName { err_span: SourceSpan },
    /// A variable has no value.
    ExpectedDefVarValue { err_span: SourceSpan },
    /// A widget template has no name.
    ExpectedDefWidgetName { err_span: SourceSpan },
    /// A widget template has no parameter list.
    ExpectedDefWidgetParams { err_span: SourceSpan },
    /// A window has no name.
    ExpectedDefWindowName { err_span: SourceSpan },
    /// An inclusion has no path.
    ExpectedIncludePath { err_span: SourceSpan },
    /// The colon before the name of an argument is missing.
    ExpectedArgColon { err_span: SourceSpan },
    /// An argument has no name.
    ExpectedArgName { err_span: SourceSpan },
    /// An argument has no value.
    ExpectedArgValue { err_span: SourceSpan },
}

impl ParseError {
    /// The region of the source text the diagnostic points at.
    pub open spec fn spec_span(&self) -> SourceSpan {
        match *self {
            ParseError::UnexpectedToken { err_span } => err_span,
            ParseError::ExpectedDefListenName { err_span } => err_span,
            ParseError::ExpectedDefListenScript { err_span } => err_span,
            ParseError::ExpectedDefPollName { err_span } => err_span,
            ParseError::ExpectedDefPollScript { err_span } => err_span,
            ParseError::ExpectedDefVarName { err_span } => err_span,
            ParseError::ExpectedDefVarValue { err_span } => err_span,
            ParseError::ExpectedDefWidgetName { err_span } => err_span,
            ParseError::ExpectedDefWidgetParams { err_span } => err_span,
            ParseError::ExpectedDefWindowName { err_span } => err_span,
            ParseError::ExpectedIncludePath { err_span } => err_span,
            ParseError::ExpectedArgColon { err_span } => err_span,
            ParseError::ExpectedArgName { err_span } => err_span,
            ParseError::ExpectedArgValue { err_span } => err_span,
        }
    }

    /// The one-line description of the diagnostic.
    pub open spec fn spec_message(&self) -> Seq<char> {
        match *self {
            ParseError::UnexpectedToken { .. } => "Token was not expected at this point"@,
            ParseError::ExpectedDefListenName { .. } => "expected a name"@,
            ParseError::ExpectedDefListenScript { .. } => "expected a script"@,
            ParseError::ExpectedDefPollName { .. } => "expected a name"@,
            ParseError::ExpectedDefPollScript { .. } => "expected a script"@,
            ParseError::ExpectedDefVarName { .. } => "expected a name"@,
            ParseError::ExpectedDefVarValue { .. } => "expected a value"@,
            ParseError::ExpectedDefWidgetName { .. } => "expected a name"@,
            ParseError::ExpectedDefWidgetParams { .. } => "expected parameters"@,
            ParseError::ExpectedDefWindowName { .. } => "expected a name"@,
            ParseError::ExpectedIncludePath { .. } => "expected a path"@,
            ParseError::ExpectedArgColon { .. } => "expected a colon"@,
            ParseError::ExpectedArgName { .. } => "expected a name"@,
            ParseError::ExpectedArgValue { .. } => "expected a value"@,
        }
    }

    /// The hint that goes with the diagnostic, if it has one.
    pub open spec fn spec_hint(&self) -> Option<Seq<char>> {
        match *self {
            ParseError::UnexpectedToken { .. } => None,
            ParseError::ExpectedDefListenName { .. } => Some("try providing a name here"@),
            ParseError::ExpectedDefListenScript { .. } => Some("try providing a script here"@),
            ParseError::ExpectedDefPollName { .. } => Some("try providing a name here"@),
            ParseError::ExpectedDefPollScript { .. } => Some("try providing a script here"@),
            ParseError::ExpectedDefVarName { .. } => Some("try providing a name here"@),
            ParseError::ExpectedDefVarValue { .. } => Some("try providing a value here"@),
            ParseError::ExpectedDefWidgetName { .. } => Some("try providing a name here"@),
            ParseError::ExpectedDefWidgetParams { .. } => Some("try providing parameters here"@),
            ParseError::ExpectedDefWindowName { .. } => Some("try providing a name here"@),
            ParseError::ExpectedIncludePath { .. } => Some("try providing a path here"@),
            ParseError::ExpectedArgColon { .. } => Some("try providing a colon here"@),
            ParseError::ExpectedArgName { .. } => Some("try providing a name here"@),
            ParseError::ExpectedArgValue { .. } => Some("try providing a value here"@),
        }
    }

    /// The region of the source text the diagnostic points at.
    pub fn span(&self) -> (span: &SourceSpan)
        ensures
            *span == self.spec_span(),
    {
        match self {
            ParseError::UnexpectedToken { err_span } => err_span,
            ParseError::ExpectedDefListenName { err_span } => err_span,
            ParseError::ExpectedDefListenScript { err_span } => err_span,
            ParseError::ExpectedDefPollName { err_span } => err_span,
            ParseError::ExpectedDefPollScript { err_span } => err_span,
            ParseError::ExpectedDefVarName { err_span } => err_span,
            ParseError::ExpectedDefVarValue { err_span } => err_span,
            ParseError::ExpectedDefWidgetName { err_span } => err_span,
            ParseError::ExpectedDefWidgetParams { err_span } => err_span,
            ParseError::ExpectedDefWindowName { err_span } => err_span,
            ParseError::ExpectedIncludePath { err_span } => err_span,
            ParseError::ExpectedArgColon { err_span } => err_span,
            ParseError::ExpectedArgName { err_span } => err_span,
            ParseError::ExpectedArgValue { err_span } => err_span,
        }
    }

    /// The one-line description of the diagnostic.
    pub fn message(&self) -> (message: &'static str)
        ensures
            message@ == self.spec_message(),
    {
        match self {
            ParseError::UnexpectedToken { .. } => "Token was not expected at this point",
            ParseError::ExpectedDefListenName { .. } => "expected a name",
            ParseError::ExpectedDefListenScript { .. } => "expected a script",
            ParseError::ExpectedDefPollName { .. } => "expected a name",
            ParseError::ExpectedDefPollScript { .. } => "expected a script",
            ParseError::ExpectedDefVarName { .. } => "expected a name",
            ParseError::ExpectedDefVarValue { .. } => "expected a value",
            ParseError::ExpectedDefWidgetName { .. } => "expected a name",
            ParseError::ExpectedDefWidgetParams { .. } => "expected parameters",
            ParseError::ExpectedDefWindowName { .. } => "expected a name",
            ParseError::ExpectedIncludePath { .. } => "expected a path",
            ParseError::ExpectedArgColon { .. } => "expected a colon",
            ParseError::ExpectedArgName { .. } => "expected a name",
            ParseError::ExpectedArgValue { .. } => "expected a value",
        }
    }

    /// The hint that goes with the diagnostic, if it has one.
    pub fn hint(&self) -> (hint: Option<&'static str>)
        ensures
            hint is Some == self.spec_hint() is Some,
            hint matches Some(text) ==> Some(text@) == self.spec_hint(),
    {
        match self {
            ParseError::UnexpectedToken { .. } => None,
            ParseError::ExpectedDefListenName { .. } => Some("try providing a name here"),
            ParseError::ExpectedDefListenScript { .. } => Some("try providing a script here"),
            ParseError::ExpectedDefPollName { .. } => Some("try providing a name here"),
            ParseError::ExpectedDefPollScript { .. } => Some("try providing a script here"),
            ParseError::ExpectedDefVarName { .. } => Some("try providing a name here"),
            ParseError::ExpectedDefVarValue { .. } => Some("try providing a value here"),
            ParseError::ExpectedDefWidgetName { .. } => Some("try providing a name here"),
            ParseError::ExpectedDefWidgetParams { .. } => Some("try providing parameters here"),
            ParseError::ExpectedDefWindowName { .. } => Some("try providing a name here"),
            ParseError::ExpectedIncludePath { .. } => Some("try providing a path here"),
            ParseError::ExpectedArgColon { .. } => Some("try providing a colon here"),
            ParseError::ExpectedArgName { .. } => Some("try providing a name here"),
            ParseError::ExpectedArgValue { .. } => Some("try providing a value here"),
        }
    }
}

} // verus!
