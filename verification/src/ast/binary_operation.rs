use super::expr::PrimitiveExpr;
use crate::spanned::Spanned;
use vstd::prelude::*;

verus! {

/// The logical and mathematical operators that take two operands.
#[derive(Debug, PartialEq, PartialOrd)]
pub enum BinaryOperator {
    And,
    Or,
    Add,
    Div,
    Mod,
    Mul,
    Sub,
}

/// An operator applied to two spanned operands.
#[derive(Debug, PartialEq, PartialOrd)]
pub struct BinaryOperation {
    pub lhs: Box<Spanned<PrimitiveExpr>>,
    pub op: BinaryOperator,
    pub rhs: Box<Spanned<PrimitiveExpr>>,
}

impl BinaryOperation {
    /// The operation `op` on the operands that `lhs` and `rhs` convert to.
    pub fn new<L: Into<Spanned<PrimitiveExpr>>, R: Into<Spanned<PrimitiveExpr>>>(
        lhs: L,
        op: BinaryOperator,
        rhs: R,
    ) -> (operation: Self)
        ensures
            call_ensures(L::into, (lhs,), *operation.lhs),
            operation.op == op,
            call_ensures(R::into, (rhs,), *operation.rhs),
    {
        Self { lhs: Box::new(lhs.into()), op, rhs: Box::new(rhs.into()) }
    }
}

} // verus!
