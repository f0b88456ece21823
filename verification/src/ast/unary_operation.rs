use super::expr::PrimitiveExpr;
use vstd::prelude::*;

verus! {

/// An operator applied to one operand.
#[derive(Debug, PartialEq, PartialOrd)]
pub enum UnaryOperation {
    Not(Box<PrimitiveExpr>),
}

impl UnaryOperation {
    /// The negation of the expression that `value` converts to.
    pub fn new_not<V: Into<PrimitiveExpr>>(value: V) -> (operation: Self)
        ensures
            operation matches UnaryOperation::Not(operand) && call_ensures(
                V::into,
                (value,),
                *operand,
            ),
    {
        Self::Not(Box::new(value.into()))
    }
}

} // verus!
