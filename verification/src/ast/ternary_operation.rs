use super::expr::PrimitiveExpr;
use vstd::prelude::*;

verus! {

/// A choice between two expressions by a condition.
#[derive(Debug, PartialEq, PartialOrd)]
pub struct TernaryOperation {
    pub cond: Box<PrimitiveExpr>,
    pub true_branch: Box<PrimitiveExpr>,
    pub false_branch: Box<PrimitiveExpr>,
}

impl TernaryOperation {
    /// The choice between what `true_branch` and `false_branch` convert to,
    /// by what `cond` converts to.
    pub fn new<
        C: Into<PrimitiveExpr>,
        T: Into<PrimitiveExpr>,
        F: Into<PrimitiveExpr>,
    >(
        cond: C,
        true_branch: T,
        false_branch: F,
    ) -> (operation: Self)
        ensures
            call_ensures(C::into, (cond,), *operation.cond),
            call_ensures(T::into, (true_branch,), *operation.true_branch),
            call_ensures(F::into, (false_branch,), *operation.false_branch),
    {
        Self {
            cond: Box::new(cond.into()),
            true_branch: Box::new(true_branch.into()),
            false_branch: Box::new(false_branch.into()),
        }
    }
}

} // verus!
