//! Making values: from plain data, and lists from their items.

use crate::datum::{chain, Datum};
use crate::laws::lemma_chain_push_back;
use crate::number::Number;
use crate::value::{views, Cons, Value};
use vstd::prelude::*;

verus! {

impl Value {
    /// The symbol of the given name.
    pub fn symbol(name: &str) -> (v: Value)
        ensures
            v@ == Datum::Symbol(name@),
    {
        Value::Symbol(name.to_owned())
    }

    /// The keyword of the given name.
    pub fn keyword(name: &str) -> (v: Value)
        ensures
            v@ == Datum::Keyword(name@),
    {
        Value::Keyword(name.to_owned())
    }

    /// The string of the given text.
    pub fn string(text: &str) -> (v: Value)
        ensures
            v@ == Datum::String(text@),
    {
        Value::String(text.to_owned())
    }

    /// A cell of the two values.
    pub fn cons(car: Value, cdr: Value) -> (v: Value)
        ensures
            v@ == Datum::Cons(Box::new(car@), Box::new(cdr@)),
    {
        Value::Cons(Cons::new(car, cdr))
    }

    /// The proper list of the elements, in their order.
    pub fn list(elements: Vec<Value>) -> (v: Value)
        ensures
            v@ == chain(views(elements@), Datum::Null),
    {
        Value::append(elements, Value::Null)
    }

    /// The list of the elements, in their order, that ends in `tail`.
    pub fn append(elements: Vec<Value>, tail: Value) -> (v: Value)
        ensures
            v@ == chain(views(elements@), tail@),
    {
        let ghost all = views(elements@);
        let ghost end = tail@;
        let mut elements = elements;
        let mut built = tail;
        while elements.len() > 0
            invariant
                chain(views(elements@), built@) == chain(all, end),
            decreases elements.len(),
        {
            let ghost before = elements@;
            if let Some(last) = elements.pop() {
                proof {
                    assert(views(before) =~= views(elements@).push(last@));
                    lemma_chain_push_back(views(elements@), last@, built@);
                }
                built = Value::Cons(Cons::new(last, built));
            }
        }
        built
    }

    /// The sequence of the elements.
    pub fn vector(elements: Vec<Value>) -> (v: Value)
        ensures
            v@ == Datum::Vector(views(elements@)),
    {
        Value::Vector(elements)
    }
}

impl From<&str> for Value {
    fn from(text: &str) -> (v: Value)
        ensures
            v@ == Datum::String(text@),
    {
        Value::String(text.to_owned())
    }
}

impl vstd::std_specs::convert::FromSpecImpl<&str> for Value {
    /// A string is made anew each time, so `from` is described by the view of
    /// what it returns.
    open spec fn obeys_from_spec() -> bool {
        false
    }

    open spec fn from_spec(text: &str) -> Value {
        Value::Nil
    }
}

impl From<String> for Value {
    fn from(text: String) -> (v: Value)
        ensures
            v@ == Datum::String(text@),
    {
        Value::String(text)
    }
}

impl vstd::std_specs::convert::FromSpecImpl<String> for Value {
    open spec fn obeys_from_spec() -> bool {
        true
    }

    open spec fn from_spec(text: String) -> Value {
        Value::String(text)
    }
}

impl From<bool> for Value {
    fn from(b: bool) -> (v: Value)
        ensures
            v@ == Datum::Bool(b),
    {
        Value::Bool(b)
    }
}

impl vstd::std_specs::convert::FromSpecImpl<bool> for Value {
    open spec fn obeys_from_spec() -> bool {
        true
    }

    open spec fn from_spec(b: bool) -> Value {
        Value::Bool(b)
    }
}

impl From<Number> for Value {
    fn from(n: Number) -> (v: Value)
        ensures
            v@ == Datum::Number(n@),
    {
        Value::Number(n)
    }
}

impl vstd::std_specs::convert::FromSpecImpl<Number> for Value {
    open spec fn obeys_from_spec() -> bool {
        true
    }

    open spec fn from_spec(n: Number) -> Value {
        Value::Number(n)
    }
}

impl From<i32> for Value {
    fn from(n: i32) -> (v: Value)
        ensures
            v@ == Datum::Number(n as int),
    {
        Value::Number(Number::from(n))
    }
}

impl vstd::std_specs::convert::FromSpecImpl<i32> for Value {
    open spec fn obeys_from_spec() -> bool {
        true
    }

    open spec fn from_spec(n: i32) -> Value {
        Value::Number(Number::of(n as int))
    }
}

/// The view of a character value is that character.
proof fn lemma_char_view(c: char)
    ensures
        Value::Char(c)@ == Datum::Char(c),
{
}

impl From<char> for Value {
    fn from(c: char) -> (v: Value)
        ensures
            v@ == Datum::Char(c),
    {
        proof {
            lemma_char_view(c);
        }
        Value::Char(c)
    }
}

impl vstd::std_specs::convert::FromSpecImpl<char> for Value {
    open spec fn obeys_from_spec() -> bool {
        true
    }

    open spec fn from_spec(c: char) -> Value {
        Value::Char(c)
    }
}

} // verus!
