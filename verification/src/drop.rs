//! Tearing a value down without recursion.
//!
//! A deep tree of values, of any shape, would overflow the stack if it were
//! destroyed by recursive calls. The functions here expose the child slots of a
//! value so that a walk can detach every branch before its owner is destroyed.

// The matches below have no wildcard arm on purpose: a new variant that owns
// children must be looked at here.

use crate::datum::{last_branch_beyond_0, Datum};
use crate::value::{lemma_views_update, views, Value};
use deep_safe_drop::{DeepSafeDrop, Link, SetParent};
use vstd::prelude::*;

verus! {

/// The outcome of `DeepSafeDrop::set_parent_at_index_0`: a child that the
/// parent displaced, the parent stored with nothing to hand back, or the parent
/// returned because the node has no slot.
#[verifier::external_type_specification]
#[verifier::reject_recursive_types(Link)]
pub struct ExSetParent<Link>(SetParent<Link>);

/// The view of a value that may be absent.
pub open spec fn view_of(value: Option<Value>) -> Option<Datum> {
    match value {
        Some(v) => Some(v@),
        None => None,
    }
}

pub fn is_branch_node(value: &Value) -> (b: bool)
    ensures
        b == value@.is_branch(),
{
    match value {
        Value::Cons(_) | Value::Vector(_) => true,
        Value::Nil
        | Value::Null
        | Value::Bool(_)
        | Value::Number(_)
        | Value::Char(_)
        | Value::String(_)
        | Value::Symbol(_)
        | Value::Keyword(_)
        | Value::Bytes(_) => false,
    }
}

/// The number of child slots that can be addressed: 2 for a cell, the length
/// for a sequence, none for a leaf.
pub fn slot_count(value: &Value) -> (count: usize)
    ensures
        count == value@.slot_count(),
{
    match value {
        Value::Cons(_) => 2,
        Value::Vector(vector) => {
            assert(views(vector@).len() == vector.len());
            vector.len()
        },
        Value::Nil
        | Value::Null
        | Value::Bool(_)
        | Value::Number(_)
        | Value::Char(_)
        | Value::String(_)
        | Value::Symbol(_)
        | Value::Keyword(_)
        | Value::Bytes(_) => 0,
    }
}

/// Puts `src` in place of `*dest`. What was there is handed back if it is a
/// branch, and is discarded if it is a leaf.
pub fn replace_branch_node(dest: &mut Value, src: Value) -> (prev: Option<Value>)
    ensures
        final(dest)@ == src@,
        view_of(prev) == if old(dest)@.is_branch() {
            Some(old(dest)@)
        } else {
            None
        },
{
    let mut prev = src;
    core::mem::swap(dest, &mut prev);
    if is_branch_node(&prev) {
        Some(prev)
    } else {
        None
    }
}

/// Leaves the placeholder leaf in `*value`. What was there is handed back if
/// it is a branch, and is discarded if it is a leaf.
pub fn take_branch_node(value: &mut Value) -> (prev: Option<Value>)
    ensures
        final(value)@ == Datum::Nil,
        view_of(prev) == if old(value)@.is_branch() {
            Some(old(value)@)
        } else {
            None
        },
{
    replace_branch_node(value, Value::Nil)
}

/// Slot 0 of a value, where it has one: the head of a cell, or the first slot
/// of a sequence that is not empty.
pub fn child_at_index_0(value: &mut Value) -> (slot: Option<&mut Value>)
    ensures
        slot.is_some() == old(value)@.has_slot_0(),
        slot matches Some(s) ==> s@ == old(value)@.slot_0() && final(value)@ == old(value)@.with_slot_0(
            final(s)@,
        ),
        slot is None ==> final(value)@ == old(value)@,
{
    match value {
        Value::Cons(cons) => Some(cons.car_mut()),
        Value::Vector(vector) => if vector.len() > 0 {
            let ghost before = vector@;
            let slot = &mut vector[0];
            proof {
                lemma_views_update(before, 0, *final(slot));
            }
            Some(slot)
        } else {
            None
        },
        Value::Nil
        | Value::Null
        | Value::Bool(_)
        | Value::Number(_)
        | Value::Char(_)
        | Value::String(_)
        | Value::Symbol(_)
        | Value::Keyword(_)
        | Value::Bytes(_) => None,
    }
}

/// Popping a leaf off the end does not change which branch comes last.
proof fn lemma_last_branch_pop(items: Seq<Value>)
    requires
        items.len() >= 2,
    ensures
        views(items.drop_last()) == views(items).drop_last(),
        views(items).last() == items.last()@,
{
    assert(views(items.drop_last()) =~= views(items).drop_last());
}

impl DeepSafeDrop<Value> for Value {
    fn set_parent_at_index_0(&mut self, parent: Value) -> (set: SetParent<Value>)
        ensures
            final(self)@ == old(self)@.with_slot_0(parent@),
            match set {
                SetParent::YesReplacedChild { child0 } => old(self)@.leading_child() == Some(child0@),
                SetParent::Yes => old(self)@.has_slot_0() && old(self)@.leading_child() is None,
                SetParent::No { returned_parent } => !old(self)@.has_slot_0() && returned_parent@
                    == parent@,
            },
    {
        match child_at_index_0(self) {
            Some(child0) => match replace_branch_node(child0, parent) {
                Some(child0) => SetParent::YesReplacedChild { child0 },
                None => SetParent::Yes,
            },
            None => SetParent::No { returned_parent: parent },
        }
    }

    fn take_child_at_index_0(&mut self) -> (child: Option<Value>)
        ensures
            view_of(child) == old(self)@.leading_child(),
            final(self)@ == old(self)@.without_leading_child(),
    {
        match child_at_index_0(self) {
            Some(child0) => take_branch_node(child0),
            None => None,
        }
    }

    fn take_next_child_at_pos_index(&mut self) -> (child: Option<Value>)
        ensures
            view_of(child) == old(self)@.next_child(),
            final(self)@ == old(self)@.without_next_child(),
    {
        match self {
            Value::Cons(cons) => if is_branch_node(cons.cdr()) {
                take_branch_node(cons.cdr_mut())
            } else {
                None
            },
            Value::Vector(vector) => {
                let ghost before = vector@;
                let mut found: Option<Value> = None;
                // Must not pop at index 0.
                while found.is_none() && vector.len() >= 2
                    invariant
                        vector.len() <= before.len(),
                        vector@ == before.take(vector.len() as int),
                        before.len() >= 1 ==> vector.len() >= 1,
                        before.len() < 2 ==> vector.len() == before.len(),
                        found is None ==> last_branch_beyond_0(views(before))
                            == last_branch_beyond_0(views(vector@)),
                        found matches Some(next) ==> last_branch_beyond_0(views(before))
                            == vector.len() && vector.len() < before.len() && next
                            == before[vector.len() as int],
                    decreases vector.len(),
                {
                    proof {
                        lemma_last_branch_pop(vector@);
                    }
                    if let Some(next) = vector.pop() {
                        if is_branch_node(&next) {
                            found = Some(next);
                        }
                    }
                }
                proof {
                    assert(views(vector@) =~= views(before).take(vector.len() as int));
                    if before.len() < 2 {
                        assert(vector@ =~= before);
                    }
                }
                found
            },
            Value::Nil
            | Value::Null
            | Value::Bool(_)
            | Value::Number(_)
            | Value::Char(_)
            | Value::String(_)
            | Value::Symbol(_)
            | Value::Keyword(_)
            | Value::Bytes(_) => None,
        }
    }
}

impl Link<Value> for Value {
    fn get_mut(&mut self) -> (node: &mut Value)
        ensures
            *node == *old(self),
            *final(self) == *final(node),
    {
        self
    }
}

/// `deep_safe_drop::deep_safe_drop`: while `root` hands out a child, from
/// slot 0 first and from the slots beyond it next, that child is dismantled by
/// the same means and destroyed. `root` is reached through
/// `take_child_at_index_0` and `take_next_child_at_pos_index` only, and the call
/// returns when both have nothing to give.
///
/// The contract claims the state in which that leaves `root`. Each of the two
/// operations keeps what the node comes to in the end
/// (`Datum::lemma_flattened_is_kept`), and a node from which neither has
/// anything to take is in that state (`Datum::lemma_exhausted_is_flattened`).
/// It also claims that the call does not unwind: the walk panics only where one
/// of its assertions fails, and they say of these operations what
/// `Datum::lemma_taken_is_gone`, `Datum::lemma_exhausted_stays_exhausted` and
/// `Datum::lemma_flat_has_no_child` prove.
#[verifier::external_body]
fn dismantle_children(root: &mut Value)
    ensures
        final(root)@ == old(root)@.flattened(),
    opens_invariants none
    no_unwind
{
    deep_safe_drop::deep_safe_drop(root)
}

/// Wrap a [`Value`] with this when it may be deep (a long list, a long chain
/// of cells): when the wrapper goes out of scope the value is dismantled by a
/// loop, so that destroying it cannot overflow the stack.
pub struct DeepSafeValueDropper(pub Value);

impl DeepSafeValueDropper {
    /// Detaches and destroys everything the value owns, without recursion.
    /// The value itself stays, with no branch left in any slot.
    pub fn dismantle(&mut self)
        ensures
            final(self).0@ == old(self).0@.flattened(),
            final(self).0@.is_flat(),
        opens_invariants none
        no_unwind
    {
        proof {
            self.0@.lemma_flattened_is_flat();
        }
        dismantle_children(&mut self.0);
    }
}

impl Drop for DeepSafeValueDropper {
    /// Dismantles the value, so that what is destroyed after this call owns no
    /// branch.
    fn drop(&mut self)
        ensures
            final(self).0@ == old(self).0@.flattened(),
            final(self).0@.is_flat(),
        opens_invariants none
        no_unwind
    {
        self.dismantle();
    }
}

} // verus!
