//! The stored form of a value, and its view as a [`Datum`].

use crate::datum::Datum;
use crate::number::Number;
use vstd::prelude::*;

verus! {

/// A two-slot cell: a head and a tail, each a value of its own.
#[derive(Debug)]
pub struct Cons {
    inner: Box<(Value, Value)>,
}

/// An S-expression value.
#[derive(Debug)]
pub enum Value {
    /// The absence of a value; also the placeholder left in a vacated slot.
    Nil,
    /// The empty list.
    Null,
    Bool(bool),
    Number(Number),
    Char(char),
    String(String),
    Symbol(String),
    Keyword(String),
    Bytes(Vec<u8>),
    Cons(Cons),
    Vector(Vec<Value>),
}

/// The views of a run of values, slot by slot.
pub open spec fn views(items: Seq<Value>) -> Seq<Datum>
    decreases items, 0int,
{
    Seq::new(
        items.len(),
        |i: int|
            if 0 <= i < items.len() {
                items[i]@
            } else {
                Datum::Nil
            },
    )
}

/// Writing a value into a slot writes its view into the slot's view.
pub proof fn lemma_views_update(items: Seq<Value>, i: int, item: Value)
    requires
        0 <= i < items.len(),
    ensures
        views(items.update(i, item)) == views(items).update(i, item@),
{
    assert(views(items.update(i, item)) =~= views(items).update(i, item@));
}

impl View for Value {
    type V = Datum;

    open spec fn view(&self) -> Datum
        decreases self, 1int,
    {
        match self {
            Value::Nil => Datum::Nil,
            Value::Null => Datum::Null,
            Value::Bool(b) => Datum::Bool(*b),
            Value::Number(n) => Datum::Number(n@),
            Value::Char(c) => Datum::Char(*c),
            Value::String(s) => Datum::String(s@),
            Value::Symbol(s) => Datum::Symbol(s@),
            Value::Keyword(s) => Datum::Keyword(s@),
            Value::Bytes(b) => Datum::Bytes(b@),
            Value::Cons(cell) => Datum::Cons(Box::new(cell.head()), Box::new(cell.tail())),
            Value::Vector(slots) => Datum::Vector(views(slots@)),
        }
    }
}

impl Cons {
    /// What the head slot holds.
    pub closed spec fn head(self) -> Datum
        decreases self, 0int,
    {
        self.inner.0@
    }

    /// What the tail slot holds.
    pub closed spec fn tail(self) -> Datum
        decreases self, 0int,
    {
        self.inner.1@
    }

    pub fn new(car: Value, cdr: Value) -> (cell: Cons)
        ensures
            cell.head() == car@,
            cell.tail() == cdr@,
    {
        Cons { inner: Box::new((car, cdr)) }
    }

    pub fn car(&self) -> (r: &Value)
        ensures
            r@ == self.head(),
    {
        &self.inner.0
    }

    pub fn cdr(&self) -> (r: &Value)
        ensures
            r@ == self.tail(),
    {
        &self.inner.1
    }

    pub fn car_mut(&mut self) -> (r: &mut Value)
        ensures
            r@ == old(self).head(),
            final(self).head() == final(r)@,
            final(self).tail() == old(self).tail(),
    {
        &mut self.inner.0
    }

    pub fn cdr_mut(&mut self) -> (r: &mut Value)
        ensures
            r@ == old(self).tail(),
            final(self).tail() == final(r)@,
            final(self).head() == old(self).head(),
    {
        &mut self.inner.1
    }
}

impl Clone for Cons {
    fn clone(&self) -> (copy: Cons)
        ensures
            copy.head() == self.head(),
            copy.tail() == self.tail(),
        decreases self, 0int,
    {
        Cons { inner: Box::new((self.inner.0.clone(), self.inner.1.clone())) }
    }
}

impl Clone for Value {
    /// A copy that owns everything it holds.
    fn clone(&self) -> (copy: Value)
        ensures
            copy@ == self@,
        decreases self, 1int,
    {
        match self {
            Value::Nil => Value::Nil,
            Value::Null => Value::Null,
            Value::Bool(b) => Value::Bool(*b),
            Value::Number(n) => Value::Number(*n),
            Value::Char(c) => Value::Char(*c),
            Value::String(s) => Value::String(s.clone()),
            Value::Symbol(s) => Value::Symbol(s.clone()),
            Value::Keyword(s) => Value::Keyword(s.clone()),
            Value::Bytes(b) => Value::Bytes(b.clone()),
            Value::Cons(cell) => Value::Cons(cell.clone()),
            Value::Vector(slots) => {
                let mut copies: Vec<Value> = Vec::new();
                let mut i: usize = 0;
                while i < slots.len()
                    invariant
                        i <= slots.len(),
                        copies.len() == i,
                        decreases_to!(*self => *slots),
                        forall|j: int| 0 <= j < i ==> copies[j]@ == slots[j]@,
                    decreases slots.len() - i,
                {
                    proof {
                        vstd::std_specs::vec::axiom_vec_index_decreases(*slots, i as int);
                    }
                    copies.push(slots[i].clone());
                    i += 1;
                }
                proof {
                    assert(views(copies@) =~= views(slots@));
                }
                Value::Vector(copies)
            },
        }
    }
}

impl PartialEq for Cons {
    fn eq(&self, other: &Cons) -> (equal: bool)
        decreases self, 0int,
    {
        self.inner.0.eq(&other.inner.0) && self.inner.1.eq(&other.inner.1)
    }
}

impl vstd::std_specs::cmp::PartialEqSpecImpl for Cons {
    open spec fn obeys_eq_spec() -> bool {
        true
    }

    /// Two cells are equal when their heads are and their tails are.
    open spec fn eq_spec(&self, other: &Cons) -> bool {
        self.head() == other.head() && self.tail() == other.tail()
    }
}

impl PartialEq for Value {
    fn eq(&self, other: &Value) -> (equal: bool)
        decreases self, 1int,
    {
        match (self, other) {
            (Value::Nil, Value::Nil) => true,
            (Value::Null, Value::Null) => true,
            (Value::Bool(a), Value::Bool(b)) => *a == *b,
            (Value::Number(a), Value::Number(b)) => a.same(b),
            (Value::Char(a), Value::Char(b)) => *a == *b,
            (Value::String(a), Value::String(b)) => a.eq(b),
            (Value::Symbol(a), Value::Symbol(b)) => a.eq(b),
            (Value::Keyword(a), Value::Keyword(b)) => a.eq(b),
            (Value::Bytes(a), Value::Bytes(b)) => {
                let equal = a.eq(b);
                proof {
                    if equal {
                        assert(a@ =~= b@);
                    }
                }
                equal
            },
            (Value::Cons(a), Value::Cons(b)) => a.eq(b),
            (Value::Vector(a), Value::Vector(b)) => {
                if a.len() != b.len() {
                    proof {
                        assert(views(a@).len() != views(b@).len());
                    }
                    return false;
                }
                let mut i: usize = 0;
                while i < a.len()
                    invariant
                        i <= a.len(),
                        a.len() == b.len(),
                        *self == Value::Vector(*a),
                        *other == Value::Vector(*b),
                        decreases_to!(*self => *a),
                        forall|j: int| 0 <= j < i ==> a[j]@ == b[j]@,
                    decreases a.len() - i,
                {
                    proof {
                        vstd::std_specs::vec::axiom_vec_index_decreases(*a, i as int);
                    }
                    if !a[i].eq(&b[i]) {
                        proof {
                            assert(views(a@)[i as int] != views(b@)[i as int]);
                        }
                        return false;
                    }
                    i += 1;
                }
                proof {
                    assert(views(a@) =~= views(b@));
                }
                true
            },
            _ => false,
        }
    }
}

impl vstd::std_specs::cmp::PartialEqSpecImpl for Value {
    open spec fn obeys_eq_spec() -> bool {
        true
    }

    /// Two values are equal when they stand for the same datum.
    open spec fn eq_spec(&self, other: &Value) -> bool {
        self@ == other@
    }
}

impl PartialEq<String> for Value {
    fn eq(&self, other: &String) -> (equal: bool) {
        match self {
            Value::String(text) => text.eq(other),
            _ => false,
        }
    }
}

impl vstd::std_specs::cmp::PartialEqSpecImpl<String> for Value {
    open spec fn obeys_eq_spec() -> bool {
        true
    }

    /// A value equals a text when it is the string of that text.
    open spec fn eq_spec(&self, other: &String) -> bool {
        self@ == Datum::String(other@)
    }
}

/// A long list is a chain of cells through their tails. The chain is taken
/// apart link by link, so that destroying a list needs no more stack than
/// destroying one cell.
impl Drop for Cons {
    fn drop(&mut self)
        ensures
            final(self).head() == old(self).head(),
            final(self).tail() == Datum::Nil,
        opens_invariants none
        no_unwind
    {
        let mut rest = Value::Nil;
        core::mem::swap(&mut self.inner.1, &mut rest);
        loop
            decreases rest@.branches(),
        {
            match rest {
                Value::Cons(mut next) => {
                    let mut tail = Value::Nil;
                    core::mem::swap(&mut next.inner.1, &mut tail);
                    rest = tail;
                },
                _ => {
                    break ;
                },
            }
        }
    }
}

} // verus!
