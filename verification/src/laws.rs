//! What holds of the slot operations, stated over [`Datum`].
//!
//! A walk that dismantles a tree relies on these: no branch is lost or handed
//! out twice, every request makes progress, and a node that has nothing more
//! to give is flat.

use crate::datum::{
    branches_among, branches_of, chain, last_branch_beyond_0, leaves_among, leaves_of, Datum,
};
use vstd::prelude::*;

verus! {

/// The index that `last_branch_beyond_0` gives is that of a branch beyond slot
/// 0 with only leaves behind it; 0 means that every slot beyond slot 0 holds a
/// leaf.
pub proof fn lemma_last_branch_beyond_0(slots: Seq<Datum>)
    ensures
        ({
            let k = last_branch_beyond_0(slots);
            &&& 0 <= k
            &&& k > 0 ==> k < slots.len() && slots[k].is_branch()
            &&& forall|j: int| 1 <= j < slots.len() && j > k ==> !(#[trigger] slots[j]).is_branch()
        }),
    decreases slots.len(),
{
    if slots.len() >= 2 && !slots.last().is_branch() {
        let front = slots.drop_last();
        lemma_last_branch_beyond_0(front);
        let k = last_branch_beyond_0(front);
        assert forall|j: int| 1 <= j < slots.len() && j > k implies !(#[trigger] slots[j]).is_branch() by {
            if j < front.len() {
                assert(slots[j] == front[j]);
            }
        }
    }
}

/// What slot 0 holds has no part in which branch comes last beyond it.
pub proof fn lemma_last_branch_ignores_slot_0(slots: Seq<Datum>, content: Datum)
    requires
        slots.len() > 0,
    ensures
        last_branch_beyond_0(slots.update(0, content)) == last_branch_beyond_0(slots),
    decreases slots.len(),
{
    if slots.len() >= 2 {
        let changed = slots.update(0, content);
        assert(changed.last() == slots.last());
        if !slots.last().is_branch() {
            assert(changed.drop_last() =~= slots.drop_last().update(0, content));
            lemma_last_branch_ignores_slot_0(slots.drop_last(), content);
        }
    }
}

/// Writing `content` into slot `i` exchanges the census of what was there for
/// that of `content`.
pub proof fn lemma_census_update(slots: Seq<Datum>, i: int, content: Datum)
    requires
        0 <= i < slots.len(),
    ensures
        branches_among(slots.update(i, content)) + slots[i].branches() == branches_among(slots)
            + content.branches(),
        leaves_among(slots.update(i, content)) + slots[i].leaves() == leaves_among(slots)
            + content.leaves(),
    decreases slots.len(),
{
    let changed = slots.update(i, content);
    if i == slots.len() - 1 {
        assert(changed.drop_last() =~= slots.drop_last());
    } else {
        assert(changed.drop_last() =~= slots.drop_last().update(i, content));
        lemma_census_update(slots.drop_last(), i, content);
    }
}

/// Where only leaves stand from slot `k` on, cutting the sequence at `k`
/// removes one leaf for each slot cut and no branch.
pub proof fn lemma_census_cut_leaves(slots: Seq<Datum>, k: int)
    requires
        0 <= k <= slots.len(),
        forall|j: int| k <= j < slots.len() ==> !(#[trigger] slots[j]).is_branch(),
    ensures
        branches_among(slots) == branches_among(slots.take(k)),
        leaves_among(slots) == leaves_among(slots.take(k)) + (slots.len() - k),
    decreases slots.len() - k,
{
    if k == slots.len() {
        assert(slots.take(k) =~= slots);
    } else {
        let front = slots.drop_last();
        assert(front.take(k) =~= slots.take(k));
        assert forall|j: int| k <= j < front.len() implies !(#[trigger] front[j]).is_branch() by {
            assert(front[j] == slots[j]);
        }
        lemma_census_cut_leaves(front, k);
        assert(!slots[slots.len() - 1].is_branch());
        slots.last().lemma_census_of_node();
    }
}

impl Datum {
    /// A leaf counts as one leaf and no branch; a branch counts as one branch
    /// at least.
    pub proof fn lemma_census_of_node(self)
        ensures
            !self.is_branch() ==> self.branches() == 0 && self.leaves() == 1,
            self.is_branch() ==> self.branches() >= 1,
    {
    }

    /// A node with no branch in any slot is the only branch of its tree, if it
    /// is one at all: destroying it visits nothing below it.
    pub proof fn lemma_flat_census(self)
        requires
            self.is_flat(),
        ensures
            self.branches() == if self.is_branch() { 1nat } else { 0 },
            self.leaves() == if self.is_branch() { self.slot_count() } else { 1 },
    {
        match self {
            Datum::Cons(head, tail) => {
                head.lemma_census_of_node();
                tail.lemma_census_of_node();
            },
            Datum::Vector(slots) => {
                lemma_census_cut_leaves(slots, 0);
                assert(slots.take(0) =~= Seq::<Datum>::empty());
            },
            _ => {},
        }
    }

    /// A leaf has nothing to give and is left as it is: dismantling it changes
    /// nothing.
    pub proof fn lemma_leaf_is_untouched(self, ancestor: Datum)
        requires
            !self.is_branch(),
        ensures
            self.slot_count() == 0,
            self.leading_child() is None,
            self.next_child() is None,
            self.without_leading_child() == self,
            self.without_next_child() == self,
            self.with_slot_0(ancestor) == self,
            self.flattened() == self,
            self.is_flat(),
    {
    }

    /// A node with no branch in any slot has no child to give: an empty
    /// sequence and a cell of two leaves are done at once.
    pub proof fn lemma_flat_has_no_child(self)
        requires
            self.is_flat(),
        ensures
            self.leading_child() is None,
            self.next_child() is None,
    {
        if let Datum::Vector(slots) = self {
            lemma_last_branch_beyond_0(slots);
        }
    }

    /// What is left after every child was taken has no branch in any slot, and
    /// taking from it again changes nothing.
    pub proof fn lemma_flattened_is_flat(self)
        ensures
            self.flattened().is_flat(),
            self.flattened().flattened() == self.flattened(),
    {
    }

    /// Taking a child never changes what the node comes to in the end.
    pub proof fn lemma_flattened_is_kept(self)
        ensures
            self.without_leading_child().flattened() == self.flattened(),
            self.without_next_child().flattened() == self.flattened(),
    {
        if let Datum::Vector(slots) = self {
            lemma_last_branch_beyond_0(slots);
        }
    }

    /// When neither slot 0 nor the slots beyond it have a child to give, the
    /// two requests leave the node as it will be in the end.
    pub proof fn lemma_exhausted_is_flattened(self)
        requires
            self.leading_child() is None,
            self.next_child() is None,
        ensures
            self.without_leading_child().without_next_child() == self.flattened(),
    {
        self.lemma_taken_is_gone();
        if let Datum::Vector(slots) = self {
            if slots.len() > 0 {
                let cleared = slots.update(0, Datum::Nil);
                lemma_last_branch_beyond_0(slots);
                if slots.len() >= 2 {
                    assert(cleared.take(1) =~= seq![Datum::Nil]);
                } else {
                    assert(cleared =~= seq![Datum::Nil]);
                }
            }
        }
    }

    /// Once the leading child was asked for, slot 0 has none to give, and the
    /// slots beyond it are as they were.
    pub proof fn lemma_taken_is_gone(self)
        ensures
            self.without_leading_child().leading_child() is None,
            self.without_leading_child().next_child() == self.next_child(),
            self.without_next_child().leading_child() == self.leading_child(),
    {
        if let Datum::Vector(slots) = self {
            lemma_last_branch_beyond_0(slots);
            if slots.len() > 0 {
                lemma_last_branch_ignores_slot_0(slots, Datum::Nil);
            }
        }
    }

    /// A node that had no next child to give has none afterwards either.
    pub proof fn lemma_exhausted_stays_exhausted(self)
        requires
            self.next_child() is None,
        ensures
            self.without_next_child().next_child() is None,
    {
    }

    /// Asking for the leading child loses no branch and repeats none: the
    /// branches of the node are those it keeps and those of the child handed
    /// back. Of the leaves, the placeholder comes in, and a leaf that stood in
    /// slot 0 goes out; every other leaf is kept or handed back with the child.
    pub proof fn lemma_leading_child_census(self)
        ensures
            self.branches() == self.without_leading_child().branches() + branches_of(
                self.leading_child(),
            ),
            self.leaves() + (if self.has_slot_0() { 1nat } else { 0 })
                == self.without_leading_child().leaves() + leaves_of(self.leading_child()) + (if self.has_slot_0()
                && self.leading_child() is None { 1nat } else { 0 }),
    {
        self.lemma_ancestor_link_census(Datum::Nil);
        Datum::Nil.lemma_census_of_node();
    }

    /// Asking for the next child loses no branch and repeats none: the
    /// branches of the node are those it keeps and those of the child handed
    /// back. A cell gets the placeholder for the child. A sequence loses the
    /// child's slot and the slots behind it, and each of those held one leaf.
    pub proof fn lemma_next_child_census(self)
        ensures
            self.branches() == self.without_next_child().branches() + branches_of(self.next_child()),
            self is Cons ==> self.leaves() + (if self.next_child() is Some { 1nat } else { 0 })
                == self.without_next_child().leaves() + leaves_of(self.next_child()),
            self is Vector ==> self.leaves() + (if self.next_child() is Some { 1nat } else { 0 })
                == self.without_next_child().leaves() + leaves_of(self.next_child())
                + (self.slot_count() - self.without_next_child().slot_count()),
    {
        match self {
            Datum::Cons(_, tail) => {
                tail.lemma_census_of_node();
                Datum::Nil.lemma_census_of_node();
            },
            Datum::Vector(slots) => {
                lemma_last_branch_beyond_0(slots);
                let k = last_branch_beyond_0(slots);
                if k > 0 {
                    let upto = slots.take(k + 1);
                    lemma_census_cut_leaves(slots, k + 1);
                    assert(upto.drop_last() =~= slots.take(k));
                    assert(upto.last() == slots[k]);
                } else if slots.len() >= 2 {
                    lemma_census_cut_leaves(slots, 1);
                }
            },
            _ => {},
        }
    }

    /// Storing an ancestor in slot 0 loses no branch and repeats none: the
    /// ancestor is kept in the node, or comes back where the node has no slot;
    /// what stood in slot 0 comes back if it is a branch, and was one leaf if
    /// it is not.
    pub proof fn lemma_ancestor_link_census(self, ancestor: Datum)
        ensures
            self.has_slot_0() ==> self.branches() + ancestor.branches() == self.with_slot_0(
                ancestor,
            ).branches() + branches_of(self.leading_child()),
            self.has_slot_0() ==> self.leaves() + ancestor.leaves() == self.with_slot_0(
                ancestor,
            ).leaves() + leaves_of(self.leading_child()) + (if self.leading_child() is None { 1nat } else { 0 }),
            !self.has_slot_0() ==> self.with_slot_0(ancestor) == self,
    {
        match self {
            Datum::Cons(head, _) => {
                head.lemma_census_of_node();
            },
            Datum::Vector(slots) => {
                if slots.len() > 0 {
                    slots[0].lemma_census_of_node();
                    lemma_census_update(slots, 0, ancestor);
                }
            },
            _ => {},
        }
    }

    /// Each child handed back leaves the node with fewer branches: a walk that
    /// keeps asking comes to an end.
    pub proof fn lemma_taking_makes_progress(self)
        ensures
            self.leading_child() is Some ==> self.without_leading_child().branches() < self.branches(),
            self.next_child() is Some ==> self.without_next_child().branches() < self.branches(),
    {
        self.lemma_leading_child_census();
        self.lemma_next_child_census();
        if let Some(child) = self.leading_child() {
            child.lemma_census_of_node();
        }
        if let Some(child) = self.next_child() {
            if let Datum::Vector(slots) = self {
                lemma_last_branch_beyond_0(slots);
            }
            child.lemma_census_of_node();
        }
    }
}

/// A chain is a proper list exactly when it ends in one, and a dotted list
/// exactly when it ends in one.
pub proof fn lemma_chain_kind(items: Seq<Datum>, end: Datum)
    ensures
        chain(items, end).is_list() == end.is_list(),
        chain(items, end).is_dotted_list() == end.is_dotted_list(),
    decreases items.len(),
{
    if items.len() > 0 {
        lemma_chain_kind(items.drop_first(), end);
    }
}

/// A chain with one more item at the back is the chain that ends in a cell of
/// that item.
pub proof fn lemma_chain_push_back(items: Seq<Datum>, item: Datum, end: Datum)
    ensures
        chain(items.push(item), end) == chain(
            items,
            Datum::Cons(Box::new(item), Box::new(end)),
        ),
    decreases items.len(),
{
    let longer = items.push(item);
    if items.len() == 0 {
        assert(longer.drop_first() =~= items);
        assert(chain(longer.drop_first(), end) == end);
        assert(longer.first() == item);
    } else {
        assert(longer.drop_first() =~= items.drop_first().push(item));
        assert(longer.first() == items.first());
        lemma_chain_push_back(items.drop_first(), item, end);
    }
}

/// Only one run of items and one end that is no cell make a given chain.
pub proof fn lemma_chain_unique(a: Seq<Datum>, a_end: Datum, b: Seq<Datum>, b_end: Datum)
    requires
        chain(a, a_end) == chain(b, b_end),
        !(a_end is Cons),
        !(b_end is Cons),
    ensures
        a == b,
        a_end == b_end,
    decreases a.len(),
{
    if a.len() == 0 {
        if b.len() > 0 {
            assert(chain(b, b_end) is Cons);
        }
        assert(a =~= b);
    } else {
        assert(chain(a, a_end) is Cons);
        assert(b.len() > 0);
        lemma_chain_unique(a.drop_first(), a_end, b.drop_first(), b_end);
        assert(a =~= seq![a.first()] + a.drop_first());
        assert(b =~= seq![b.first()] + b.drop_first());
    }
}

} // verus!
