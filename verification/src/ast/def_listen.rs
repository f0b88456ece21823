use super::{atom::Atom, convert_all, symbol::Symbol};
use crate::spanned::Spanned;
use vstd::prelude::*;
use vstd::std_specs::convert::FromSpecImpl;

verus! {

/// The definition of a listened variable: the span of the keyword, the name,
/// the named arguments and the script whose output is followed.
#[derive(Clone, Debug, PartialEq, PartialOrd)]
pub struct DefListen {
    pub keyword: Spanned<()>,
    pub name: Spanned<Symbol>,
    pub args: Vec<DefListenArg>,
    pub script: Spanned<String>,
}

impl DefListen {
    /// The definition made of what the parts convert to, the arguments in
    /// the order given.
    pub fn new<
        K: Into<Spanned<()>>,
        N: Into<Spanned<Symbol>>,
        A: Into<DefListenArg>,
        S: Into<Spanned<String>>,
    >(keyword: K, name: N, args: Vec<A>, script: S) -> (definition: Self)
        ensures
            call_ensures(K::into, (keyword,), definition.keyword),
            call_ensures(N::into, (name,), definition.name),
            definition.args@.len() == args@.len(),
            forall|i: int|
                0 <= i < args@.len() ==> call_ensures(
                    A::into,
                    (args@[i],),
                    #[trigger] definition.args@[i],
                ),
            call_ensures(S::into, (script,), definition.script),
    {
        Self {
            keyword: keyword.into(),
            name: name.into(),
            args: convert_all(args),
            script: script.into(),
        }
    }
}

/// One named argument of a listened variable.
#[derive(Clone, Debug, PartialEq, PartialOrd)]
pub struct DefListenArg {
    pub name: Spanned<Symbol>,
    pub value: DefListenArgValue,
}

impl DefListenArg {
    /// The argument made of what `name` and `value` convert to.
    pub fn new<N: Into<Spanned<Symbol>>, V: Into<DefListenArgValue>>(
        name: N,
        value: V,
    ) -> (arg: Self)
        ensures
            call_ensures(N::into, (name,), arg.name),
            call_ensures(V::into, (value,), arg.value),
    {
        Self { name: name.into(), value: value.into() }
    }
}

/// The value of an argument of a listened variable.
#[derive(Clone, Debug, PartialEq, PartialOrd)]
pub enum DefListenArgValue {
    Atom(Spanned<Atom>),
}

impl From<Spanned<Atom>> for DefListenArgValue {
    fn from(value: Spanned<Atom>) -> (converted: Self) {
        DefListenArgValue::Atom(value)
    }
}

impl FromSpecImpl<Spanned<Atom>> for DefListenArgValue {
    open spec fn obeys_from_spec() -> bool {
        true
    }

    open spec fn from_spec(value: Spanned<Atom>) -> Self {
        DefListenArgValue::Atom(value)
    }
}

} // verus!
