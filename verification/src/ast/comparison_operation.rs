use super::expr::PrimitiveExpr;
use crate::spanned::Spanned;
use vstd::prelude::*;

verus! {

/// The operators that compare two operands.
#[derive(Debug, PartialEq, PartialOrd)]
pub enum ComparisonOperator {
    Eq,
    Gt,
    Gte,
    Lt,
    Lte,
    Neq,
}

/// A comparison of two spanned operands.
#[derive(Debug, PartialEq, PartialOrd)]
pub struct ComparisonOperation {
    lhs: Box<Spanned<PrimitiveExpr>>,
    op: ComparisonOperator,
    rhs: Box<Spanned<PrimitiveExpr>>,
}

impl ComparisonOperation {
    /// The left operand.
    pub closed spec fn lhs(&self) -> Spanned<PrimitiveExpr> {
        *self.lhs
    }

    /// The operator.
    pub closed spec fn op(&self) -> ComparisonOperator {
        self.op
    }

    /// The right operand.
    pub closed spec fn rhs(&self) -> Spanned<PrimitiveExpr> {
        *self.rhs
    }

    /// The comparison `op` of the operands that `lhs` and `rhs` convert to.
    pub fn new<L: Into<Spanned<PrimitiveExpr>>, R: Into<Spanned<PrimitiveExpr>>>(
        lhs: L,
        op: ComparisonOperator,
        rhs: R,
    ) -> (operation: Self)
        ensures
            call_ensures(L::into, (lhs,), operation.lhs()),
            operation.op() == op,
            call_ensures(R::into, (rhs,), operation.rhs()),
    {
        Self { lhs: Box::new(lhs.into()), op, rhs: Box::new(rhs.into()) }
    }
}

} // verus!
