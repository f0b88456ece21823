use vstd::prelude::*;
use vstd::std_specs::convert::FromSpecImpl;

verus! {

/// `String::from` of the standard library, for a string slice: the conversion
/// yields an owned string that holds the same text.
pub assume_specification<'a>[ <std::string::String as From<&'a str>>::from ](
    text: &str,
) -> (owned: std::string::String)
    ensures
        owned@ == text@,
;

/// A bare identifier.
#[derive(Clone, Debug, PartialEq, PartialOrd)]
pub struct Symbol(pub String);

impl Symbol {
    /// The symbol that `value` converts to.
    pub fn new<V: Into<String>>(value: V) -> (symbol: Self)
        ensures
            call_ensures(V::into, (value,), symbol.0),
    {
        Self(value.into())
    }
}

impl From<&str> for Symbol {
    fn from(value: &str) -> (symbol: Self)
        ensures
            symbol.0@ == value@,
    {
        Self::new(value)
    }
}

impl FromSpecImpl<&str> for Symbol {
    open spec fn obeys_from_spec() -> bool {
        false
    }

    open spec fn from_spec(value: &str) -> Self {
        arbitrary()
    }
}

} // verus!
