use super::{atom::Atom, symbol::Symbol};
use crate::spanned::Spanned;
use vstd::prelude::*;
use vstd::std_specs::convert::FromSpecImpl;

verus! {

/// The definition of a variable: the span of the keyword, the name and the
/// initial value.
#[derive(Clone, Debug, PartialEq, PartialOrd)]
pub struct DefVar {
    pub keyword: Spanned<()>,
    pub name: Spanned<Symbol>,
    pub value: DefVarValue,
}

impl DefVar {
    /// The definition made of what the parts convert to.
    pub fn new<K: Into<Spanned<()>>, N: Into<Spanned<Symbol>>, V: Into<DefVarValue>>(
        keyword: K,
        name: N,
        value: V,
    ) -> (definition: Self)
        ensures
            call_ensures(K::into, (keyword,), definition.keyword),
            call_ensures(N::into, (name,), definition.name),
            call_ensures(V::into, (value,), definition.value),
    {
        Self { keyword: keyword.into(), name: name.into(), value: value.into() }
    }
}

/// The initial value of a variable.
#[derive(Clone, Debug, PartialEq, PartialOrd)]
pub enum DefVarValue {
    Atom(Spanned<Atom>),
}

impl From<Spanned<Atom>> for DefVarValue {
    fn from(value: Spanned<Atom>) -> (converted: Self) {
        DefVarValue::Atom(value)
    }
}

impl FromSpecImpl<Spanned<Atom>> for DefVarValue {
    open spec fn obeys_from_spec() -> bool {
        true
    }

    open spec fn from_spec(value: Spanned<Atom>) -> Self {
        DefVarValue::Atom(value)
    }
}

} // verus!
