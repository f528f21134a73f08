//! The mathematical model of a value: a finite tree of leaves and branches.
//!
//! Every contract of this crate is stated over [`Datum`], the view of a
//! [`Value`](crate::value::Value). A branch is a two-slot cell or a sequence;
//! everything else is a leaf and owns nothing.

use vstd::prelude::*;

verus! {

/// What a value is, apart from how it is stored.
pub enum Datum {
    Nil,
    Null,
    Bool(bool),
    Number(int),
    Char(char),
    String(Seq<char>),
    Symbol(Seq<char>),
    Keyword(Seq<char>),
    Bytes(Seq<u8>),
    /// A two-slot cell: the head slot, then the tail slot.
    Cons(Box<Datum>, Box<Datum>),
    /// A sequence of slots, addressed from 0.
    Vector(Seq<Datum>),
}

/// The index of the last branch among `slots[1..]`, or 0 where there is none.
/// Slot 0 is never a candidate.
pub open spec fn last_branch_beyond_0(slots: Seq<Datum>) -> int
    decreases slots.len(),
{
    if slots.len() < 2 {
        0
    } else if slots.last().is_branch() {
        slots.len() - 1
    } else {
        last_branch_beyond_0(slots.drop_last())
    }
}

/// The cells that hold `items` in their heads, one after another, with `end`
/// in the last tail; `end` itself where there are no items.
pub open spec fn chain(items: Seq<Datum>, end: Datum) -> Datum
    decreases items.len(),
{
    if items.len() == 0 {
        end
    } else {
        Datum::Cons(Box::new(items.first()), Box::new(chain(items.drop_first(), end)))
    }
}

/// The number of branches in the trees that `slots` hold.
pub open spec fn branches_among(slots: Seq<Datum>) -> nat
    decreases slots,
{
    if slots.len() == 0 {
        0
    } else {
        branches_among(slots.drop_last()) + slots.last().branches()
    }
}

/// The number of leaves in the trees that `slots` hold.
pub open spec fn leaves_among(slots: Seq<Datum>) -> nat
    decreases slots,
{
    if slots.len() == 0 {
        0
    } else {
        leaves_among(slots.drop_last()) + slots.last().leaves()
    }
}

/// The branches of a tree that may be absent.
pub open spec fn branches_of(tree: Option<Datum>) -> nat {
    match tree {
        Some(d) => d.branches(),
        None => 0,
    }
}

/// The leaves of a tree that may be absent.
pub open spec fn leaves_of(tree: Option<Datum>) -> nat {
    match tree {
        Some(d) => d.leaves(),
        None => 0,
    }
}

impl Datum {
    /// The number of branches in the tree, the node itself included.
    pub open spec fn branches(self) -> nat
        decreases self,
    {
        match self {
            Datum::Cons(head, tail) => 1 + head.branches() + tail.branches(),
            Datum::Vector(slots) => 1 + branches_among(slots),
            Datum::Nil
            | Datum::Null
            | Datum::Bool(_)
            | Datum::Number(_)
            | Datum::Char(_)
            | Datum::String(_)
            | Datum::Symbol(_)
            | Datum::Keyword(_)
            | Datum::Bytes(_) => 0,
        }
    }

    /// The number of leaves in the tree, the node itself included.
    pub open spec fn leaves(self) -> nat
        decreases self,
    {
        match self {
            Datum::Cons(head, tail) => head.leaves() + tail.leaves(),
            Datum::Vector(slots) => leaves_among(slots),
            Datum::Nil
            | Datum::Null
            | Datum::Bool(_)
            | Datum::Number(_)
            | Datum::Char(_)
            | Datum::String(_)
            | Datum::Symbol(_)
            | Datum::Keyword(_)
            | Datum::Bytes(_) => 1,
        }
    }

    /// A proper list: the empty list, or cells whose tails end in it.
    pub open spec fn is_list(self) -> bool
        decreases self,
    {
        match self {
            Datum::Null => true,
            Datum::Cons(_, tail) => tail.is_list(),
            _ => false,
        }
    }

    /// A dotted list: anything but the empty list and cells whose tails end
    /// in it. A value that is no cell counts as one.
    pub open spec fn is_dotted_list(self) -> bool
        decreases self,
    {
        match self {
            Datum::Null => false,
            Datum::Cons(_, tail) => tail.is_dotted_list(),
            _ => true,
        }
    }

    /// A branch owns child slots; a leaf owns nothing.
    pub open spec fn is_branch(self) -> bool {
        match self {
            Datum::Cons(_, _) | Datum::Vector(_) => true,
            Datum::Nil
            | Datum::Null
            | Datum::Bool(_)
            | Datum::Number(_)
            | Datum::Char(_)
            | Datum::String(_)
            | Datum::Symbol(_)
            | Datum::Keyword(_)
            | Datum::Bytes(_) => false,
        }
    }

    /// The number of child slots that can be addressed.
    pub open spec fn slot_count(self) -> nat {
        match self {
            Datum::Cons(_, _) => 2,
            Datum::Vector(slots) => slots.len(),
            Datum::Nil
            | Datum::Null
            | Datum::Bool(_)
            | Datum::Number(_)
            | Datum::Char(_)
            | Datum::String(_)
            | Datum::Symbol(_)
            | Datum::Keyword(_)
            | Datum::Bytes(_) => 0,
        }
    }

    pub open spec fn has_slot_0(self) -> bool {
        self.slot_count() > 0
    }

    /// What slot 0 holds. Meaningful only where there is a slot 0.
    pub open spec fn slot_0(self) -> Datum
        recommends
            self.has_slot_0(),
    {
        match self {
            Datum::Cons(head, _) => *head,
            Datum::Vector(slots) => slots[0],
            Datum::Nil
            | Datum::Null
            | Datum::Bool(_)
            | Datum::Number(_)
            | Datum::Char(_)
            | Datum::String(_)
            | Datum::Symbol(_)
            | Datum::Keyword(_)
            | Datum::Bytes(_) => Datum::Nil,
        }
    }

    /// The same node with `content` in slot 0; the node itself where it has no slot 0.
    pub open spec fn with_slot_0(self, content: Datum) -> Datum {
        match self {
            Datum::Cons(_, tail) => Datum::Cons(Box::new(content), tail),
            Datum::Vector(slots) => if slots.len() > 0 {
                Datum::Vector(slots.update(0, content))
            } else {
                self
            },
            Datum::Nil
            | Datum::Null
            | Datum::Bool(_)
            | Datum::Number(_)
            | Datum::Char(_)
            | Datum::String(_)
            | Datum::Symbol(_)
            | Datum::Keyword(_)
            | Datum::Bytes(_) => self,
        }
    }

    /// The branch in slot 0, if slot 0 exists and holds one.
    pub open spec fn leading_child(self) -> Option<Datum> {
        if self.has_slot_0() && self.slot_0().is_branch() {
            Some(self.slot_0())
        } else {
            None
        }
    }

    /// The node once its leading child has been asked for: slot 0 holds the
    /// placeholder leaf, whatever it held before.
    pub open spec fn without_leading_child(self) -> Datum {
        self.with_slot_0(Datum::Nil)
    }

    /// The next branch beyond slot 0 that has not been taken: the tail of a
    /// cell, or the last branch of a sequence.
    pub open spec fn next_child(self) -> Option<Datum> {
        match self {
            Datum::Cons(_, tail) => if tail.is_branch() {
                Some(*tail)
            } else {
                None
            },
            Datum::Vector(slots) => {
                let k = last_branch_beyond_0(slots);
                if k > 0 {
                    Some(slots[k])
                } else {
                    None
                }
            },
            Datum::Nil
            | Datum::Null
            | Datum::Bool(_)
            | Datum::Number(_)
            | Datum::Char(_)
            | Datum::String(_)
            | Datum::Symbol(_)
            | Datum::Keyword(_)
            | Datum::Bytes(_) => None,
        }
    }

    /// The node once its next child has been asked for. A cell keeps a leaf
    /// tail and gets the placeholder for a branch tail. A sequence loses the
    /// child and every leaf behind it; with no child left it shrinks to slot 0.
    pub open spec fn without_next_child(self) -> Datum {
        match self {
            Datum::Cons(head, tail) => if tail.is_branch() {
                Datum::Cons(head, Box::new(Datum::Nil))
            } else {
                self
            },
            Datum::Vector(slots) => {
                let k = last_branch_beyond_0(slots);
                if k > 0 {
                    Datum::Vector(slots.take(k))
                } else if slots.len() >= 2 {
                    Datum::Vector(slots.take(1))
                } else {
                    self
                }
            },
            Datum::Nil
            | Datum::Null
            | Datum::Bool(_)
            | Datum::Number(_)
            | Datum::Char(_)
            | Datum::String(_)
            | Datum::Symbol(_)
            | Datum::Keyword(_)
            | Datum::Bytes(_) => self,
        }
    }

    /// No slot holds a branch: the node can be finalized without visiting anything.
    pub open spec fn is_flat(self) -> bool {
        match self {
            Datum::Cons(head, tail) => !head.is_branch() && !tail.is_branch(),
            Datum::Vector(slots) => forall|i: int| 0 <= i < slots.len() ==> !(#[trigger] slots[i]).is_branch(),
            Datum::Nil
            | Datum::Null
            | Datum::Bool(_)
            | Datum::Number(_)
            | Datum::Char(_)
            | Datum::String(_)
            | Datum::Symbol(_)
            | Datum::Keyword(_)
            | Datum::Bytes(_) => true,
        }
    }

    /// What is left of a node when every child has been taken from it.
    pub open spec fn flattened(self) -> Datum {
        match self {
            Datum::Cons(_, tail) => Datum::Cons(
                Box::new(Datum::Nil),
                if tail.is_branch() {
                    Box::new(Datum::Nil)
                } else {
                    tail
                },
            ),
            Datum::Vector(slots) => if slots.len() == 0 {
                self
            } else {
                Datum::Vector(seq![Datum::Nil])
            },
            Datum::Nil
            | Datum::Null
            | Datum::Bool(_)
            | Datum::Number(_)
            | Datum::Char(_)
            | Datum::String(_)
            | Datum::Symbol(_)
            | Datum::Keyword(_)
            | Datum::Bytes(_) => self,
        }
    }
}

} // verus!
