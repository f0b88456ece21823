use super::{convert_all, symbol::Symbol, widget_call::WidgetCall};
use crate::spanned::Spanned;
use vstd::prelude::*;
use vstd::std_specs::convert::FromSpecImpl;

verus! {

/// The definition of a widget template: the span of the keyword, the name,
/// the parameters and the widgets it is made of.
#[derive(Clone, Debug, PartialEq, PartialOrd)]
pub struct DefWidget {
    pub keyword: Spanned<()>,
    pub name: Spanned<Symbol>,
    pub params: Vec<DefWidgetParam>,
    pub children: Vec<DefWidgetChild>,
}

impl DefWidget {
    /// The definition made of what the parts convert to, parameters and
    /// children in the order given.
    pub fn new<
        K: Into<Spanned<()>>,
        N: Into<Spanned<Symbol>>,
        P: Into<DefWidgetParam>,
        C: Into<DefWidgetChild>,
    >(keyword: K, name: N, params: Vec<P>, children: Vec<C>) -> (definition: Self)
        ensures
            call_ensures(K::into, (keyword,), definition.keyword),
            call_ensures(N::into, (name,), definition.name),
            definition.params@.len() == params@.len(),
            forall|i: int|
                0 <= i < params@.len() ==> call_ensures(
                    P::into,
                    (params@[i],),
                    #[trigger] definition.params@[i],
                ),
            definition.children@.len() == children@.len(),
            forall|i: int|
                0 <= i < children@.len() ==> call_ensures(
                    C::into,
                    (children@[i],),
                    #[trigger] definition.children@[i],
                ),
    {
        Self {
            keyword: keyword.into(),
            name: name.into(),
            params: convert_all(params),
            children: convert_all(children),
        }
    }
}

/// One parameter of a widget template; a question mark before the name
/// makes it optional.
#[derive(Clone, Debug, PartialEq, PartialOrd)]
pub struct DefWidgetParam {
    pub name: Spanned<Symbol>,
    pub is_optional: bool,
}

impl DefWidgetParam {
    /// The parameter named by what `name` converts to.
    pub fn new<N: Into<Spanned<Symbol>>>(name: N, is_optional: bool) -> (param: Self)
        ensures
            call_ensures(N::into, (name,), param.name),
            param.is_optional == is_optional,
    {
        Self { name: name.into(), is_optional }
    }
}

/// What a widget template may contain.
#[derive(Clone, Debug, PartialEq, PartialOrd)]
pub enum DefWidgetChild {
    WidgetCall(Spanned<WidgetCall>),
}

impl From<Spanned<WidgetCall>> for DefWidgetChild {
    fn from(value: Spanned<WidgetCall>) -> (converted: Self) {
        DefWidgetChild::WidgetCall(value)
    }
}

impl FromSpecImpl<Spanned<WidgetCall>> for DefWidgetChild {
    open spec fn obeys_from_spec() -> bool {
        true
    }

    open spec fn from_spec(value: Spanned<WidgetCall>) -> Self {
        DefWidgetChild::WidgetCall(value)
    }
}

} // verus!
