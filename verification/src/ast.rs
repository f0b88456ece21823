//! The syntax tree: every node pairs with the byte offsets it covers, and
//! every category that can fail on its own has a placeholder variant that
//! stands for a construct that could not be parsed.

use vstd::prelude::*;

pub mod atom;
pub mod binary_operation;
pub mod comparison_operation;
pub mod def_listen;
pub mod def_poll;
pub mod def_var;
pub mod def_widget;
pub mod def_window;
pub mod expr;
pub mod function_call;
pub mod inclusion;
pub mod literal;
pub mod symbol;
pub mod ternary_operation;
pub mod top_level_expr;
pub mod unary_operation;
pub mod widget_call;

mod parse_error;

pub use parse_error::ParseError;

verus! {

/// Converts every item of a list, keeping the order.
pub fn convert_all<A: Into<B>, B>(items: Vec<A>) -> (converted: Vec<B>)
    ensures
        converted@.len() == items@.len(),
        forall|i: int|
            0 <= i < items@.len() ==> call_ensures(A::into, (items@[i],), #[trigger] converted@[i]),
{
    let mut converted: Vec<B> = Vec::new();
    for item in it: items
        invariant
            it.seq() == items@,
            converted@.len() == it.index(),
            forall|i: int|
                0 <= i < converted@.len() ==> call_ensures(
                    A::into,
                    (items@[i],),
                    #[trigger] converted@[i],
                ),
    {
        converted.push(item.into());
    }
    converted
}

} // verus!
