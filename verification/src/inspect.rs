//! Asking what a value is, and reading what it holds.

use crate::datum::{chain, Datum};
use crate::laws::{lemma_chain_kind, lemma_chain_push_back};
use crate::number::Number;
use crate::value::{views, Cons, Value};
use vstd::prelude::*;

verus! {

impl Cons {
    /// The heads of the chain of cells that starts here, and what its last
    /// tail holds, all copied.
    pub fn to_vec(&self) -> (parts: (Vec<Value>, Value))
        ensures
            parts.0.len() >= 1,
            !(parts.1@ is Cons),
            chain(views(parts.0@), parts.1@) == Datum::Cons(
                Box::new(self.head()),
                Box::new(self.tail()),
            ),
    {
        let mut items: Vec<Value> = Vec::new();
        items.push(self.car().clone());
        let mut rest: &Value = self.cdr();
        proof {
            assert(views(items@) =~= seq![self.head()]);
            assert(views(items@).drop_first() =~= Seq::<Datum>::empty());
            assert(chain(views(items@).drop_first(), rest@) == rest@);
        }
        loop
            invariant
                items.len() >= 1,
                chain(views(items@), rest@) == Datum::Cons(
                    Box::new(self.head()),
                    Box::new(self.tail()),
                ),
            ensures
                !(rest@ is Cons),
            decreases rest@.branches(),
        {
            match rest {
                Value::Cons(cell) => {
                    let ghost before = items@;
                    items.push(cell.car().clone());
                    proof {
                        assert(views(items@) =~= views(before).push(cell.head()));
                        lemma_chain_push_back(views(before), cell.head(), cell.tail());
                    }
                    rest = cell.cdr();
                },
                _ => {
                    break ;
                },
            }
        }
        (items, rest.clone())
    }
}

impl Value {
    pub fn is_nil(&self) -> (b: bool)
        ensures
            b == (self@ is Nil),
    {
        match self {
            Value::Nil => true,
            _ => false,
        }
    }

    pub fn is_null(&self) -> (b: bool)
        ensures
            b == (self@ is Null),
    {
        match self {
            Value::Null => true,
            _ => false,
        }
    }

    pub fn is_number(&self) -> (b: bool)
        ensures
            b == (self@ is Number),
    {
        match self {
            Value::Number(_) => true,
            _ => false,
        }
    }

    pub fn is_char(&self) -> (b: bool)
        ensures
            b == (self@ is Char),
    {
        match self {
            Value::Char(_) => true,
            _ => false,
        }
    }

    pub fn is_string(&self) -> (b: bool)
        ensures
            b == (self@ is String),
    {
        match self {
            Value::String(_) => true,
            _ => false,
        }
    }

    pub fn is_symbol(&self) -> (b: bool)
        ensures
            b == (self@ is Symbol),
    {
        match self {
            Value::Symbol(_) => true,
            _ => false,
        }
    }

    pub fn is_keyword(&self) -> (b: bool)
        ensures
            b == (self@ is Keyword),
    {
        match self {
            Value::Keyword(_) => true,
            _ => false,
        }
    }

    pub fn is_cons(&self) -> (b: bool)
        ensures
            b == (self@ is Cons),
    {
        match self {
            Value::Cons(_) => true,
            _ => false,
        }
    }

    pub fn is_vector(&self) -> (b: bool)
        ensures
            b == (self@ is Vector),
    {
        match self {
            Value::Vector(_) => true,
            _ => false,
        }
    }

    /// Whether the value is a proper list.
    pub fn is_list(&self) -> (b: bool)
        ensures
            b == self@.is_list(),
    {
        let mut rest: &Value = self;
        loop
            invariant
                rest@.is_list() == self@.is_list(),
            decreases rest@.branches(),
        {
            match rest {
                Value::Null => {
                    return true;
                },
                Value::Cons(cell) => {
                    rest = cell.cdr();
                },
                _ => {
                    return false;
                },
            }
        }
    }

    /// Whether the value is a dotted list. A value that is no cell is one,
    /// but for the empty list.
    pub fn is_dotted_list(&self) -> (b: bool)
        ensures
            b == self@.is_dotted_list(),
    {
        let mut rest: &Value = self;
        loop
            invariant
                rest@.is_dotted_list() == self@.is_dotted_list(),
            decreases rest@.branches(),
        {
            match rest {
                Value::Null => {
                    return false;
                },
                Value::Cons(cell) => {
                    rest = cell.cdr();
                },
                _ => {
                    return true;
                },
            }
        }
    }

    /// The text of a string.
    pub fn as_str(&self) -> (text: Option<&str>)
        ensures
            match self@ {
                Datum::String(chars) => text matches Some(t) && t@ == chars,
                _ => text is None,
            },
    {
        match self {
            Value::String(s) => Some(s.as_str()),
            _ => None,
        }
    }

    /// The name of a symbol.
    pub fn as_symbol(&self) -> (name: Option<&str>)
        ensures
            match self@ {
                Datum::Symbol(chars) => name matches Some(t) && t@ == chars,
                _ => name is None,
            },
    {
        match self {
            Value::Symbol(s) => Some(s.as_str()),
            _ => None,
        }
    }

    /// The name of a keyword.
    pub fn as_keyword(&self) -> (name: Option<&str>)
        ensures
            match self@ {
                Datum::Keyword(chars) => name matches Some(t) && t@ == chars,
                _ => name is None,
            },
    {
        match self {
            Value::Keyword(s) => Some(s.as_str()),
            _ => None,
        }
    }

    /// The name of a symbol or a keyword, or the text of a string.
    pub fn as_name(&self) -> (name: Option<&str>)
        ensures
            match self@ {
                Datum::Symbol(chars) | Datum::Keyword(chars) | Datum::String(chars) => name matches Some(
                    t,
                ) && t@ == chars,
                _ => name is None,
            },
    {
        match self {
            Value::Symbol(s) => Some(s.as_str()),
            Value::Keyword(s) => Some(s.as_str()),
            Value::String(s) => Some(s.as_str()),
            _ => None,
        }
    }

    pub fn as_number(&self) -> (number: Option<&Number>)
        ensures
            match self@ {
                Datum::Number(n) => number matches Some(m) && m@ == n,
                _ => number is None,
            },
    {
        match self {
            Value::Number(n) => Some(n),
            _ => None,
        }
    }

    pub fn as_char(&self) -> (c: Option<char>)
        ensures
            c == match self@ {
                Datum::Char(c) => Some(c),
                _ => None,
            },
    {
        match self {
            Value::Char(c) => Some(*c),
            _ => None,
        }
    }

    pub fn as_cons(&self) -> (cell: Option<&Cons>)
        ensures
            match cell {
                Some(c) => self@ == Datum::Cons(Box::new(c.head()), Box::new(c.tail())),
                None => !(self@ is Cons),
            },
    {
        match self {
            Value::Cons(cell) => Some(cell),
            _ => None,
        }
    }

    /// The slots of a sequence.
    pub fn as_slice(&self) -> (slots: Option<&[Value]>)
        ensures
            match slots {
                Some(s) => self@ == Datum::Vector(views(s@)),
                None => !(self@ is Vector),
            },
    {
        match self {
            Value::Vector(slots) => Some(slots.as_slice()),
            _ => None,
        }
    }

    /// The items of a proper list, copied.
    pub fn to_vec(&self) -> (items: Option<Vec<Value>>)
        ensures
            match items {
                Some(v) => self@ == chain(views(v@), Datum::Null),
                None => !self@.is_list(),
            },
    {
        match self {
            Value::Null => {
                let items: Vec<Value> = Vec::new();
                proof {
                    assert(views(items@) =~= Seq::<Datum>::empty());
                }
                Some(items)
            },
            Value::Cons(cell) => {
                let (items, rest) = cell.to_vec();
                proof {
                    lemma_chain_kind(views(items@), rest@);
                }
                if rest.is_null() {
                    Some(items)
                } else {
                    None
                }
            },
            _ => None,
        }
    }
}

} // verus!
