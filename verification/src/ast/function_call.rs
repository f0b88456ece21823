use super::{expr::PrimitiveExpr, symbol::Symbol};
use vstd::prelude::*;

verus! {

/// A call of a named function on a list of expressions.
#[derive(Debug, PartialEq, PartialOrd)]
pub struct FunctionCall {
    pub name: Symbol,
    pub args: Vec<PrimitiveExpr>,
}

impl FunctionCall {
    /// The call of the function that `name` converts to, on `args`.
    pub fn new<N: Into<Symbol>>(name: N, args: Vec<PrimitiveExpr>) -> (call: Self)
        ensures
            call_ensures(N::into, (name,), call.name),
            call.args == args,
    {
        Self { name: name.into(), args }
    }
}

} // verus!
