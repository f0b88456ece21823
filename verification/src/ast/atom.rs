use super::symbol::Symbol;
use vstd::prelude::*;
use vstd::std_specs::convert::FromSpecImpl;

verus! {

/// A value that stands for itself: a boolean, a number kept as text, a
/// string literal or a symbol.
#[derive(Clone, Debug, PartialEq, PartialOrd)]
pub enum Atom {
    Bool(bool),
    Number(String),
    StrLit(String),
    Symbol(Symbol),
}

impl Atom {
    /// The number whose digits `value` converts to.
    pub fn new_number<V: Into<String>>(value: V) -> (atom: Self)
        ensures
            atom matches Atom::Number(digits) && call_ensures(V::into, (value,), digits),
    {
        Self::Number(value.into())
    }
}

impl From<&str> for Atom {
    fn from(value: &str) -> (atom: Self)
        ensures
            atom matches Atom::StrLit(text) && text@ == value@,
    {
        Atom::StrLit(value.into())
    }
}

impl FromSpecImpl<&str> for Atom {
    open spec fn obeys_from_spec() -> bool {
        false
    }

    open spec fn from_spec(value: &str) -> Self {
        arbitrary()
    }
}

impl From<bool> for Atom {
    fn from(value: bool) -> (converted: Self) {
        Atom::Bool(value)
    }
}

impl FromSpecImpl<bool> for Atom {
    open spec fn obeys_from_spec() -> bool {
        true
    }

    open spec fn from_spec(value: bool) -> Self {
        Atom::Bool(value)
    }
}

impl From<Symbol> for Atom {
    fn from(value: Symbol) -> (converted: Self) {
        Atom::Symbol(value)
    }
}

impl FromSpecImpl<Symbol> for Atom {
    open spec fn obeys_from_spec() -> bool {
        true
    }

    open spec fn from_spec(value: Symbol) -> Self {
        Atom::Symbol(value)
    }
}

} // verus!
