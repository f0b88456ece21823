use super::{atom::Atom, convert_all, symbol::Symbol, widget_call::WidgetCall};
use crate::spanned::Spanned;
use vstd::prelude::*;
use vstd::std_specs::convert::FromSpecImpl;

verus! {

/// The declaration of a window: the span of the keyword, the name, the
/// named arguments and the content.
#[derive(Clone, Debug, PartialEq, PartialOrd)]
pub struct DefWindow {
    pub keyword: Spanned<()>,
    pub name: Spanned<Symbol>,
    pub args: Vec<DefWindowArg>,
    pub content: Vec<DefWindowContent>,
}

impl DefWindow {
    /// The declaration made of what the parts convert to, arguments and
    /// content in the order given.
    pub fn new<
        K: Into<Spanned<()>>,
        N: Into<Spanned<Symbol>>,
        A: Into<DefWindowArg>,
        C: Into<DefWindowContent>,
    >(keyword: K, name: N, args: Vec<A>, content: Vec<C>) -> (definition: Self)
        ensures
            call_ensures(K::into, (keyword,), definition.keyword),
            call_ensures(N::into, (name,), definition.name),
            definition.args@.len() == args@.len(),
            forall|i: int|
                0 <= i < args@.len() ==> call_ensures(
                    A::into,
                    (args@[i],),
                    #[trigger] definition.args@[i],
                ),
            definition.content@.len() == content@.len(),
            forall|i: int|
                0 <= i < content@.len() ==> call_ensures(
                    C::into,
                    (content@[i],),
                    #[trigger] definition.content@[i],
                ),
    {
        Self {
            keyword: keyword.into(),
            name: name.into(),
            args: convert_all(args),
            content: convert_all(content),
        }
    }
}

/// One named argument of a window.
#[derive(Clone, Debug, PartialEq, PartialOrd)]
pub struct DefWindowArg {
    pub name: Spanned<Symbol>,
    pub value: DefWindowArgValue,
}

impl DefWindowArg {
    /// The argument made of what `name` and `value` convert to.
    pub fn new<N: Into<Spanned<Symbol>>, V: Into<DefWindowArgValue>>(
        name: N,
        value: V,
    ) -> (arg: Self)
        ensures
            call_ensures(N::into, (name,), arg.name),
            call_ensures(V::into, (value,), arg.value),
    {
        Self { name: name.into(), value: value.into() }
    }
}

/// The value of an argument of a window.
#[derive(Clone, Debug, PartialEq, PartialOrd)]
pub enum DefWindowArgValue {
    Atom(Spanned<Atom>),
    WidgetCall(Spanned<WidgetCall>),
}

impl From<Spanned<Atom>> for DefWindowArgValue {
    fn from(value: Spanned<Atom>) -> (converted: Self) {
        DefWindowArgValue::Atom(value)
    }
}

impl FromSpecImpl<Spanned<Atom>> for DefWindowArgValue {
    open spec fn obeys_from_spec() -> bool {
        true
    }

    open spec fn from_spec(value: Spanned<Atom>) -> Self {
        DefWindowArgValue::Atom(value)
    }
}

impl From<Spanned<WidgetCall>> for DefWindowArgValue {
    fn from(value: Spanned<WidgetCall>) -> (converted: Self) {
        DefWindowArgValue::WidgetCall(value)
    }
}

impl FromSpecImpl<Spanned<WidgetCall>> for DefWindowArgValue {
    open spec fn obeys_from_spec() -> bool {
        true
    }

    open spec fn from_spec(value: Spanned<WidgetCall>) -> Self {
        DefWindowArgValue::WidgetCall(value)
    }
}

/// What a window may contain.
#[derive(Clone, Debug, PartialEq, PartialOrd)]
pub enum DefWindowContent {
    Atom(Spanned<Atom>),
    WidgetCall(Spanned<WidgetCall>),
}

impl From<Spanned<Atom>> for DefWindowContent {
    fn from(value: Spanned<Atom>) -> (converted: Self) {
        DefWindowContent::Atom(value)
    }
}

impl FromSpecImpl<Spanned<Atom>> for DefWindowContent {
    open spec fn obeys_from_spec() -> bool {
        true
    }

    open spec fn from_spec(value: Spanned<Atom>) -> Self {
        DefWindowContent::Atom(value)
    }
}

impl From<Spanned<WidgetCall>> for DefWindowContent {
    fn from(value: Spanned<WidgetCall>) -> (converted: Self) {
        DefWindowContent::WidgetCall(value)
    }
}

impl FromSpecImpl<Spanned<WidgetCall>> for DefWindowContent {
    open spec fn obeys_from_spec() -> bool {
        true
    }

    open spec fn from_spec(value: Spanned<WidgetCall>) -> Self {
        DefWindowContent::WidgetCall(value)
    }
}

} // verus!
