use super::{
    atom::Atom, binary_operation::BinaryOperation, comparison_operation::ComparisonOperation,
    function_call::FunctionCall, symbol::Symbol, ternary_operation::TernaryOperation,
    unary_operation::UnaryOperation,
};
use vstd::prelude::*;
use vstd::std_specs::convert::FromSpecImpl;

verus! {

/// An expression. `Error` stands for an expression that could not be parsed.
#[derive(Debug, PartialEq, PartialOrd)]
pub enum PrimitiveExpr {
    Atom(Atom),
    BinaryOperation(BinaryOperation),
    ComparisonOperation(ComparisonOperation),
    FunctionCall(FunctionCall),
    Symbol(Symbol),
    TernaryOperation(TernaryOperation),
    UnaryOperation(UnaryOperation),
    Error,
}

impl From<bool> for PrimitiveExpr {
    fn from(value: bool) -> (converted: Self) {
        PrimitiveExpr::Atom(Atom::Bool(value))
    }
}

impl FromSpecImpl<bool> for PrimitiveExpr {
    open spec fn obeys_from_spec() -> bool {
        true
    }

    open spec fn from_spec(value: bool) -> Self {
        PrimitiveExpr::Atom(Atom::Bool(value))
    }
}

impl From<&str> for PrimitiveExpr {
    fn from(value: &str) -> (expr: Self)
        ensures
            expr matches PrimitiveExpr::Atom(Atom::StrLit(text)) && text@ == value@,
    {
        Self::Atom(Atom::from(value))
    }
}

impl FromSpecImpl<&str> for PrimitiveExpr {
    open spec fn obeys_from_spec() -> bool {
        false
    }

    open spec fn from_spec(value: &str) -> Self {
        arbitrary()
    }
}

impl From<Atom> for PrimitiveExpr {
    fn from(value: Atom) -> (converted: Self) {
        PrimitiveExpr::Atom(value)
    }
}

impl FromSpecImpl<Atom> for PrimitiveExpr {
    open spec fn obeys_from_spec() -> bool {
        true
    }

    open spec fn from_spec(value: Atom) -> Self {
        PrimitiveExpr::Atom(value)
    }
}

impl From<BinaryOperation> for PrimitiveExpr {
    fn from(value: BinaryOperation) -> (converted: Self) {
        PrimitiveExpr::BinaryOperation(value)
    }
}

impl FromSpecImpl<BinaryOperation> for PrimitiveExpr {
    open spec fn obeys_from_spec() -> bool {
        true
    }

    open spec fn from_spec(value: BinaryOperation) -> Self {
        PrimitiveExpr::BinaryOperation(value)
    }
}

impl From<ComparisonOperation> for PrimitiveExpr {
    fn from(value: ComparisonOperation) -> (converted: Self) {
        PrimitiveExpr::ComparisonOperation(value)
    }
}

impl FromSpecImpl<ComparisonOperation> for PrimitiveExpr {
    open spec fn obeys_from_spec() -> bool {
        true
    }

    open spec fn from_spec(value: ComparisonOperation) -> Self {
        PrimitiveExpr::ComparisonOperation(value)
    }
}

impl From<FunctionCall> for PrimitiveExpr {
    fn from(value: FunctionCall) -> (converted: Self) {
        PrimitiveExpr::FunctionCall(value)
    }
}

impl FromSpecImpl<FunctionCall> for PrimitiveExpr {
    open spec fn obeys_from_spec() -> bool {
        true
    }

    open spec fn from_spec(value: FunctionCall) -> Self {
        PrimitiveExpr::FunctionCall(value)
    }
}

impl From<TernaryOperation> for PrimitiveExpr {
    fn from(value: TernaryOperation) -> (converted: Self) {
        PrimitiveExpr::TernaryOperation(value)
    }
}

impl FromSpecImpl<TernaryOperation> for PrimitiveExpr {
    open spec fn obeys_from_spec() -> bool {
        true
    }

    open spec fn from_spec(value: TernaryOperation) -> Self {
        PrimitiveExpr::TernaryOperation(value)
    }
}

impl From<UnaryOperation> for PrimitiveExpr {
    fn from(value: UnaryOperation) -> (converted: Self) {
        PrimitiveExpr::UnaryOperation(value)
    }
}

impl FromSpecImpl<UnaryOperation> for PrimitiveExpr {
    open spec fn obeys_from_spec() -> bool {
        true
    }

    open spec fn from_spec(value: UnaryOperation) -> Self {
        PrimitiveExpr::UnaryOperation(value)
    }
}

} // verus!
