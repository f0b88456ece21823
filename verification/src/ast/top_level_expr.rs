use super::{
    def_listen::DefListen, def_poll::DefPoll, def_var::DefVar, def_widget::DefWidget,
    def_window::DefWindow, inclusion::Include, literal::Literal, ParseError,
};
use crate::spanned::Spanned;
use vstd::prelude::*;
use vstd::std_specs::convert::FromSpecImpl;

verus! {

/// A construct at file scope. `Error` stands for a construct that could not
/// be parsed.
#[derive(Clone, Debug, PartialEq, PartialOrd)]
pub enum TopLevelExpr {
    DefListen(DefListen),
    DefPoll(DefPoll),
    DefVar(DefVar),
    DefWidget(DefWidget),
    DefWindow(DefWindow),
    Error,
    Include(Include),
    Literal(Literal),
}

impl TopLevelExpr {
    /// The unit of recovery at file scope: appends `error` to the diagnostics
    /// recorded so far and returns the placeholder that stands in the tree
    /// for the construct, over the region that the diagnostic points at.
    pub fn recover(errs: &mut Vec<ParseError>, error: ParseError) -> (placeholder: Spanned<
        TopLevelExpr,
    >)
        requires
            error.spec_span().offset + error.spec_span().length <= usize::MAX,
        ensures
            final(errs)@ == old(errs)@.push(error),
            placeholder == Spanned(
                error.spec_span().offset,
                TopLevelExpr::Error,
                (error.spec_span().offset + error.spec_span().length) as usize,
            ),
    {
        let from: usize = error.span().offset;
        let to: usize = from + error.span().length;
        errs.push(error);
        Spanned(from, TopLevelExpr::Error, to)
    }
}

impl From<DefListen> for TopLevelExpr {
    fn from(value: DefListen) -> (converted: Self) {
        TopLevelExpr::DefListen(value)
    }
}

impl FromSpecImpl<DefListen> for TopLevelExpr {
    open spec fn obeys_from_spec() -> bool {
        true
    }

    open spec fn from_spec(value: DefListen) -> Self {
        TopLevelExpr::DefListen(value)
    }
}

impl From<DefPoll> for TopLevelExpr {
    fn from(value: DefPoll) -> (converted: Self) {
        TopLevelExpr::DefPoll(value)
    }
}

impl FromSpecImpl<DefPoll> for TopLevelExpr {
    open spec fn obeys_from_spec() -> bool {
        true
    }

    open spec fn from_spec(value: DefPoll) -> Self {
        TopLevelExpr::DefPoll(value)
    }
}

impl From<DefVar> for TopLevelExpr {
    fn from(value: DefVar) -> (converted: Self) {
        TopLevelExpr::DefVar(value)
    }
}

impl FromSpecImpl<DefVar> for TopLevelExpr {
    open spec fn obeys_from_spec() -> bool {
        true
    }

    open spec fn from_spec(value: DefVar) -> Self {
        TopLevelExpr::DefVar(value)
    }
}

impl From<DefWidget> for TopLevelExpr {
    fn from(value: DefWidget) -> (converted: Self) {
        TopLevelExpr::DefWidget(value)
    }
}

impl FromSpecImpl<DefWidget> for TopLevelExpr {
    open spec fn obeys_from_spec() -> bool {
        true
    }

    open spec fn from_spec(value: DefWidget) -> Self {
        TopLevelExpr::DefWidget(value)
    }
}

impl From<DefWindow> for TopLevelExpr {
    fn from(value: DefWindow) -> (converted: Self) {
        TopLevelExpr::DefWindow(value)
    }
}

impl FromSpecImpl<DefWindow> for TopLevelExpr {
    open spec fn obeys_from_spec() -> bool {
        true
    }

    open spec fn from_spec(value: DefWindow) -> Self {
        TopLevelExpr::DefWindow(value)
    }
}

impl From<Include> for TopLevelExpr {
    fn from(value: Include) -> (converted: Self) {
        TopLevelExpr::Include(value)
    }
}

impl FromSpecImpl<Include> for TopLevelExpr {
    open spec fn obeys_from_spec() -> bool {
        true
    }

    open spec fn from_spec(value: Include) -> Self {
        TopLevelExpr::Include(value)
    }
}

impl From<Literal> for TopLevelExpr {
    fn from(value: Literal) -> (converted: Self) {
        TopLevelExpr::Literal(value)
    }
}

impl FromSpecImpl<Literal> for TopLevelExpr {
    open spec fn obeys_from_spec() -> bool {
        true
    }

    open spec fn from_spec(value: Literal) -> Self {
        TopLevelExpr::Literal(value)
    }
}

} // verus!
