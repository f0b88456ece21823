use super::{atom::Atom, symbol::Symbol};
use crate::spanned::Spanned;
use vstd::prelude::*;
use vstd::std_specs::convert::FromSpecImpl;

verus! {

/// The use of a widget: its name, the named arguments and the children.
#[derive(Debug, PartialEq, PartialOrd)]
pub struct WidgetCall {
    pub name: Spanned<Symbol>,
    pub args: Vec<WidgetCallArg>,
    pub children: Vec<WidgetCallChild>,
}

impl WidgetCall {
    /// The use of the widget named by what `name` converts to.
    pub fn new<N: Into<Spanned<Symbol>>>(
        name: N,
        args: Vec<WidgetCallArg>,
        children: Vec<WidgetCallChild>,
    ) -> (call: Self)
        ensures
            call_ensures(N::into, (name,), call.name),
            call.args == args,
            call.children == children,
    {
        Self { name: name.into(), args, children }
    }

    /// A copy of the call and of every call nested in it.
    fn duplicate(&self) -> (copy: Self)
        ensures
            copy@ == self@,
        decreases *self,
    {
        let mut children: Vec<WidgetCallChild> = Vec::new();
        let mut i: usize = 0;
        while i < self.children.len()
            invariant
                i <= self.children@.len(),
                children@.len() == i,
                forall|k: int| 0 <= k < i ==> (#[trigger] children@[k])@ == self.children@[k]@,
            decreases self.children@.len() - i,
        {
            let child = match &self.children[i] {
                WidgetCallChild::Atom(atom) => WidgetCallChild::Atom(duplicate_atom(atom)),
                WidgetCallChild::WidgetCall(call) => WidgetCallChild::WidgetCall(
                    Spanned(call.0, call.1.duplicate(), call.2),
                ),
            };
            children.push(child);
            i += 1;
        }
        let copy = WidgetCall {
            name: duplicate_name(&self.name),
            args: duplicate_args(&self.args),
            children,
        };
        assert(copy@.children =~= self@.children);
        copy
    }
}

/// What a widget call holds, with sequences in place of vectors: the name,
/// the arguments in order, and what each child holds, in order.
pub struct WidgetCallView {
    pub name: Spanned<Symbol>,
    pub args: Seq<WidgetCallArg>,
    pub children: Seq<WidgetCallChildView>,
}

/// What a child of a widget call holds: an atom, or what the nested call
/// holds, under the same span.
pub enum WidgetCallChildView {
    Atom(Spanned<Atom>),
    WidgetCall(Spanned<WidgetCallView>),
}

/// What the call holds, in the call itself and in every call nested in it.
pub open spec fn call_view(call: WidgetCall) -> WidgetCallView
    decreases call,
{
    WidgetCallView {
        name: call.name,
        args: call.args@,
        children: Seq::new(
            call.children@.len(),
            |i: int|
                if 0 <= i < call.children@.len() {
                    child_view(call.children@[i])
                } else {
                    arbitrary()
                },
        ),
    }
}

/// What the child holds, in itself and in every call nested in it.
pub open spec fn child_view(child: WidgetCallChild) -> WidgetCallChildView
    decreases child,
{
    match child {
        WidgetCallChild::Atom(atom) => WidgetCallChildView::Atom(atom),
        WidgetCallChild::WidgetCall(call) => WidgetCallChildView::WidgetCall(
            Spanned(call.0, call_view(call.1), call.2),
        ),
    }
}

impl View for WidgetCall {
    type V = WidgetCallView;

    open spec fn view(&self) -> WidgetCallView {
        call_view(*self)
    }
}

impl View for WidgetCallChild {
    type V = WidgetCallChildView;

    open spec fn view(&self) -> WidgetCallChildView {
        child_view(*self)
    }
}

/// A copy of a spanned symbol.
fn duplicate_name(name: &Spanned<Symbol>) -> (copy: Spanned<Symbol>)
    ensures
        copy == *name,
{
    Spanned(name.0, Symbol(name.1.0.clone()), name.2)
}

/// A copy of a spanned atom.
fn duplicate_atom(atom: &Spanned<Atom>) -> (copy: Spanned<Atom>)
    ensures
        copy == *atom,
{
    let value = match &atom.1 {
        Atom::Bool(value) => Atom::Bool(*value),
        Atom::Number(digits) => Atom::Number(digits.clone()),
        Atom::StrLit(text) => Atom::StrLit(text.clone()),
        Atom::Symbol(symbol) => Atom::Symbol(Symbol(symbol.0.clone())),
    };
    Spanned(atom.0, value, atom.2)
}

/// A copy of a list of arguments, in the same order.
fn duplicate_args(args: &Vec<WidgetCallArg>) -> (copy: Vec<WidgetCallArg>)
    ensures
        copy@ == args@,
{
    let mut copy: Vec<WidgetCallArg> = Vec::new();
    let mut i: usize = 0;
    while i < args.len()
        invariant
            i <= args@.len(),
            copy@ == args@.take(i as int),
        decreases args@.len() - i,
    {
        let name = match &args[i].name {
            WidgetCallArgName::Error => WidgetCallArgName::Error,
            WidgetCallArgName::Name(name) => WidgetCallArgName::Name(duplicate_name(name)),
        };
        let value = match &args[i].value {
            WidgetCallArgValue::Error => WidgetCallArgValue::Error,
            WidgetCallArgValue::Atom(atom) => WidgetCallArgValue::Atom(duplicate_atom(atom)),
        };
        copy.push(WidgetCallArg { name, value });
        assert(copy@ =~= args@.take(i + 1));
        i += 1;
    }
    assert(args@.take(args@.len() as int) =~= args@);
    copy
}

impl Clone for WidgetCall {
    fn clone(&self) -> (copy: Self)
        ensures
            copy@ == self@,
    {
        self.duplicate()
    }
}

impl Clone for WidgetCallChild {
    fn clone(&self) -> (copy: Self)
        ensures
            copy@ == self@,
    {
        match self {
            WidgetCallChild::Atom(atom) => WidgetCallChild::Atom(duplicate_atom(atom)),
            WidgetCallChild::WidgetCall(call) => WidgetCallChild::WidgetCall(
                Spanned(call.0, call.1.duplicate(), call.2),
            ),
        }
    }
}

/// One argument of a widget call. Its name and its value can each fail to
/// parse on their own.
#[derive(Clone, Debug, PartialEq, PartialOrd)]
pub struct WidgetCallArg {
    pub name: WidgetCallArgName,
    pub value: WidgetCallArgValue,
}

impl WidgetCallArg {
    /// The argument made of what `name` and `value` convert to.
    pub fn new<N: Into<WidgetCallArgName>, V: Into<WidgetCallArgValue>>(
        name: N,
        value: V,
    ) -> (arg: Self)
        ensures
            call_ensures(N::into, (name,), arg.name),
            call_ensures(V::into, (value,), arg.value),
    {
        Self { name: name.into(), value: value.into() }
    }
}

/// The name of an argument. `Error` stands for a name that could not be
/// parsed.
#[derive(Clone, Debug, PartialEq, PartialOrd)]
pub enum WidgetCallArgName {
    Error,
    Name(Spanned<Symbol>),
}

impl From<Spanned<Symbol>> for WidgetCallArgName {
    fn from(value: Spanned<Symbol>) -> (converted: Self) {
        WidgetCallArgName::Name(value)
    }
}

impl FromSpecImpl<Spanned<Symbol>> for WidgetCallArgName {
    open spec fn obeys_from_spec() -> bool {
        true
    }

    open spec fn from_spec(value: Spanned<Symbol>) -> Self {
        WidgetCallArgName::Name(value)
    }
}

/// The value of an argument. `Error` stands for a value that could not be
/// parsed.
#[derive(Clone, Debug, PartialEq, PartialOrd)]
pub enum WidgetCallArgValue {
    Error,
    Atom(Spanned<Atom>),
}

impl From<Spanned<Atom>> for WidgetCallArgValue {
    fn from(value: Spanned<Atom>) -> (converted: Self) {
        WidgetCallArgValue::Atom(value)
    }
}

impl FromSpecImpl<Spanned<Atom>> for WidgetCallArgValue {
    open spec fn obeys_from_spec() -> bool {
        true
    }

    open spec fn from_spec(value: Spanned<Atom>) -> Self {
        WidgetCallArgValue::Atom(value)
    }
}

/// What a widget call may contain.
#[derive(Debug, PartialEq, PartialOrd)]
pub enum WidgetCallChild {
    Atom(Spanned<Atom>),
    WidgetCall(Spanned<WidgetCall>),
}

impl From<Spanned<Atom>> for WidgetCallChild {
    fn from(value: Spanned<Atom>) -> (converted: Self) {
        WidgetCallChild::Atom(value)
    }
}

impl FromSpecImpl<Spanned<Atom>> for WidgetCallChild {
    open spec fn obeys_from_spec() -> bool {
        true
    }

    open spec fn from_spec(value: Spanned<Atom>) -> Self {
        WidgetCallChild::Atom(value)
    }
}

impl From<Spanned<WidgetCall>> for WidgetCallChild {
    fn from(value: Spanned<WidgetCall>) -> (converted: Self) {
        WidgetCallChild::WidgetCall(value)
    }
}

impl FromSpecImpl<Spanned<WidgetCall>> for WidgetCallChild {
    open spec fn obeys_from_spec() -> bool {
        true
    }

    open spec fn from_spec(value: Spanned<WidgetCall>) -> Self {
        WidgetCallChild::WidgetCall(value)
    }
}

} // verus!
