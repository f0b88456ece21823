use super::{convert_all, symbol::Symbol};
use crate::spanned::Spanned;
use vstd::prelude::*;
use vstd::std_specs::convert::FromSpecImpl;

verus! {

/// A literal fragment: the span of the keyword and the named arguments.
#[derive(Clone, Debug, PartialEq, PartialOrd)]
pub struct Literal {
    pub keyword: Spanned<()>,
    pub args: Vec<LiteralArg>,
}

impl Literal {
    /// The fragment made of what the parts convert to, the arguments in the
    /// order given.
    pub fn new<K: Into<Spanned<()>>, A: Into<LiteralArg>>(keyword: K, args: Vec<A>) -> (literal:
        Self)
        ensures
            call_ensures(K::into, (keyword,), literal.keyword),
            literal.args@.len() == args@.len(),
            forall|i: int|
                0 <= i < args@.len() ==> call_ensures(
                    A::into,
                    (args@[i],),
                    #[trigger] literal.args@[i],
                ),
    {
        Self { keyword: keyword.into(), args: convert_all(args) }
    }
}

/// One named argument of a literal fragment.
#[derive(Clone, Debug, PartialEq, PartialOrd)]
pub struct LiteralArg {
    pub name: Spanned<Symbol>,
    pub value: LiteralArgValue,
}

impl LiteralArg {
    /// The argument made of what `name` and `value` convert to.
    pub fn new<N: Into<Spanned<Symbol>>, V: Into<LiteralArgValue>>(name: N, value: V) -> (arg: Self)
        ensures
            call_ensures(N::into, (name,), arg.name),
            call_ensures(V::into, (value,), arg.value),
    {
        Self { name: name.into(), value: value.into() }
    }
}

/// The value of an argument of a literal fragment.
#[derive(Clone, Debug, PartialEq, PartialOrd)]
pub enum LiteralArgValue {
    String(Spanned<String>),
    Symbol(Spanned<Symbol>),
}

impl From<Spanned<String>> for LiteralArgValue {
    fn from(value: Spanned<String>) -> (converted: Self) {
        LiteralArgValue::String(value)
    }
}

impl FromSpecImpl<Spanned<String>> for LiteralArgValue {
    open spec fn obeys_from_spec() -> bool {
        true
    }

    open spec fn from_spec(value: Spanned<String>) -> Self {
        LiteralArgValue::String(value)
    }
}

impl From<Spanned<Symbol>> for LiteralArgValue {
    fn from(value: Spanned<Symbol>) -> (converted: Self) {
        LiteralArgValue::Symbol(value)
    }
}

impl FromSpecImpl<Spanned<Symbol>> for LiteralArgValue {
    open spec fn obeys_from_spec() -> bool {
        true
    }

    open spec fn from_spec(value: Spanned<Symbol>) -> Self {
        LiteralArgValue::Symbol(value)
    }
}

} // verus!
