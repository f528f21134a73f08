use deep_safe_drop::{DeepSafeDrop, SetParent};
use lexpr::{
    child_at_index_0, is_branch_node, replace_branch_node, slot_count, take_branch_node, Number,
    Value,
};

fn leaf(n: i32) -> Value {
    Value::from(n)
}

fn cell(car: Value, cdr: Value) -> Value {
    Value::cons(car, cdr)
}

#[test]
fn is_branch_node_tells_cells_and_sequences_from_leaves() {
    assert!(is_branch_node(&cell(leaf(1), leaf(2))));
    assert!(is_branch_node(&Value::vector(vec![])));
    assert!(is_branch_node(&Value::vector(vec![leaf(1)])));
    assert!(!is_branch_node(&Value::Nil));
    assert!(!is_branch_node(&Value::Null));
    assert!(!is_branch_node(&Value::Bool(true)));
    assert!(!is_branch_node(&Value::Number(Number::from(7))));
    assert!(!is_branch_node(&Value::Char('x')));
    assert!(!is_branch_node(&Value::from("text")));
    assert!(!is_branch_node(&Value::symbol("sym")));
    assert!(!is_branch_node(&Value::keyword("key")));
    assert!(!is_branch_node(&Value::Bytes(vec![1, 2, 3])));
}

#[test]
fn slot_count_is_two_for_a_cell_and_the_length_for_a_sequence() {
    assert_eq!(slot_count(&cell(leaf(1), leaf(2))), 2);
    assert_eq!(slot_count(&Value::vector(vec![])), 0);
    assert_eq!(slot_count(&Value::vector(vec![leaf(1), leaf(2), leaf(3)])), 3);
    assert_eq!(slot_count(&leaf(5)), 0);
    assert_eq!(slot_count(&Value::from("text")), 0);
    assert_eq!(slot_count(&Value::Nil), 0);
}

#[test]
fn child_at_index_0_is_the_head_of_a_cell() {
    let mut v = cell(leaf(1), leaf(2));
    {
        let slot = child_at_index_0(&mut v).expect("a cell has a slot 0");
        assert_eq!(*slot, leaf(1));
        *slot = Value::symbol("written");
    }
    assert_eq!(v, cell(Value::symbol("written"), leaf(2)));
}

#[test]
fn child_at_index_0_is_the_first_slot_of_a_sequence() {
    let mut v = Value::vector(vec![leaf(1), leaf(2), leaf(3)]);
    {
        let slot = child_at_index_0(&mut v).expect("the sequence is not empty");
        assert_eq!(*slot, leaf(1));
        *slot = Value::Null;
    }
    assert_eq!(v, Value::vector(vec![Value::Null, leaf(2), leaf(3)]));
}

#[test]
fn child_at_index_0_is_absent_without_slots() {
    let mut empty = Value::vector(vec![]);
    assert!(child_at_index_0(&mut empty).is_none());
    assert_eq!(empty, Value::vector(vec![]));
    let mut number = leaf(9);
    assert!(child_at_index_0(&mut number).is_none());
    assert_eq!(number, leaf(9));
    let mut text = Value::from("text");
    assert!(child_at_index_0(&mut text).is_none());
    assert_eq!(text, Value::from("text"));
}

#[test]
fn replace_branch_node_hands_back_a_branch() {
    let mut dest = cell(leaf(1), leaf(2));
    let prev = replace_branch_node(&mut dest, leaf(3));
    assert_eq!(prev, Some(cell(leaf(1), leaf(2))));
    assert_eq!(dest, leaf(3));
}

#[test]
fn replace_branch_node_discards_a_leaf() {
    let mut dest = Value::from("old");
    let prev = replace_branch_node(&mut dest, Value::vector(vec![leaf(1)]));
    assert_eq!(prev, None);
    assert_eq!(dest, Value::vector(vec![leaf(1)]));
}

#[test]
fn take_branch_node_leaves_the_placeholder() {
    let mut branch = Value::vector(vec![leaf(1), leaf(2)]);
    assert_eq!(
        take_branch_node(&mut branch),
        Some(Value::vector(vec![leaf(1), leaf(2)]))
    );
    assert_eq!(branch, Value::Nil);

    let mut number = leaf(4);
    assert_eq!(take_branch_node(&mut number), None);
    assert_eq!(number, Value::Nil);
}

#[test]
fn set_parent_is_returned_by_a_node_without_slots() {
    let mut number = leaf(4);
    match number.set_parent_at_index_0(cell(leaf(1), leaf(2))) {
        SetParent::No { returned_parent } => assert_eq!(returned_parent, cell(leaf(1), leaf(2))),
        other => panic!("expected the parent back, got {:?}", other),
    }
    assert_eq!(number, leaf(4));

    let mut empty = Value::vector(vec![]);
    match empty.set_parent_at_index_0(cell(leaf(1), leaf(2))) {
        SetParent::No { returned_parent } => assert_eq!(returned_parent, cell(leaf(1), leaf(2))),
        other => panic!("expected the parent back, got {:?}", other),
    }
    assert_eq!(empty, Value::vector(vec![]));
}

#[test]
fn set_parent_overwrites_a_leaf_in_slot_0() {
    let mut v = cell(leaf(1), leaf(2));
    assert!(matches!(
        v.set_parent_at_index_0(Value::vector(vec![leaf(7)])),
        SetParent::Yes
    ));
    assert_eq!(v, cell(Value::vector(vec![leaf(7)]), leaf(2)));

    let mut seq = Value::vector(vec![leaf(1), leaf(2)]);
    assert!(matches!(
        seq.set_parent_at_index_0(cell(leaf(8), leaf(9))),
        SetParent::Yes
    ));
    assert_eq!(seq, Value::vector(vec![cell(leaf(8), leaf(9)), leaf(2)]));
}

#[test]
fn set_parent_hands_back_a_displaced_child() {
    let mut v = cell(cell(leaf(1), leaf(2)), leaf(3));
    match v.set_parent_at_index_0(Value::vector(vec![leaf(7)])) {
        SetParent::YesReplacedChild { child0 } => assert_eq!(child0, cell(leaf(1), leaf(2))),
        other => panic!("expected the displaced child, got {:?}", other),
    }
    assert_eq!(v, cell(Value::vector(vec![leaf(7)]), leaf(3)));

    let mut seq = Value::vector(vec![Value::vector(vec![]), leaf(2)]);
    match seq.set_parent_at_index_0(cell(leaf(8), leaf(9))) {
        SetParent::YesReplacedChild { child0 } => assert_eq!(child0, Value::vector(vec![])),
        other => panic!("expected the displaced child, got {:?}", other),
    }
    assert_eq!(seq, Value::vector(vec![cell(leaf(8), leaf(9)), leaf(2)]));
}

#[test]
fn take_child_at_index_0_detaches_a_branch_once() {
    let mut v = cell(cell(leaf(1), leaf(2)), leaf(3));
    assert_eq!(v.take_child_at_index_0(), Some(cell(leaf(1), leaf(2))));
    assert_eq!(v, cell(Value::Nil, leaf(3)));
    assert_eq!(v.take_child_at_index_0(), None);
    assert_eq!(v, cell(Value::Nil, leaf(3)));
}

#[test]
fn take_child_at_index_0_puts_the_placeholder_over_a_leaf() {
    let mut v = cell(leaf(1), leaf(3));
    assert_eq!(v.take_child_at_index_0(), None);
    assert_eq!(v, cell(Value::Nil, leaf(3)));

    let mut seq = Value::vector(vec![leaf(1), cell(leaf(5), leaf(6))]);
    assert_eq!(seq.take_child_at_index_0(), None);
    assert_eq!(seq, Value::vector(vec![Value::Nil, cell(leaf(5), leaf(6))]));
}

#[test]
fn take_child_at_index_0_gives_nothing_without_slots() {
    let mut empty = Value::vector(vec![]);
    assert_eq!(empty.take_child_at_index_0(), None);
    assert_eq!(empty, Value::vector(vec![]));
    let mut text = Value::from("text");
    assert_eq!(text.take_child_at_index_0(), None);
    assert_eq!(text, Value::from("text"));
}

#[test]
fn take_next_child_of_a_cell_is_a_branch_tail() {
    let mut v = cell(leaf(1), Value::vector(vec![leaf(2)]));
    assert_eq!(
        v.take_next_child_at_pos_index(),
        Some(Value::vector(vec![leaf(2)]))
    );
    assert_eq!(v, cell(leaf(1), Value::Nil));
    assert_eq!(v.take_next_child_at_pos_index(), None);
    assert_eq!(v, cell(leaf(1), Value::Nil));
}

#[test]
fn take_next_child_of_a_cell_leaves_a_leaf_tail_in_place() {
    let mut v = cell(cell(leaf(0), leaf(1)), Value::from("tail"));
    assert_eq!(v.take_next_child_at_pos_index(), None);
    assert_eq!(v, cell(cell(leaf(0), leaf(1)), Value::from("tail")));
}

#[test]
fn take_next_child_of_a_sequence_pops_leaves_until_a_branch() {
    let mut v = Value::vector(vec![
        leaf(0),
        cell(leaf(1), leaf(2)),
        leaf(3),
        Value::vector(vec![leaf(4)]),
        leaf(5),
        leaf(6),
    ]);
    assert_eq!(
        v.take_next_child_at_pos_index(),
        Some(Value::vector(vec![leaf(4)]))
    );
    assert_eq!(
        v,
        Value::vector(vec![leaf(0), cell(leaf(1), leaf(2)), leaf(3)])
    );
    assert_eq!(v.take_next_child_at_pos_index(), Some(cell(leaf(1), leaf(2))));
    assert_eq!(v, Value::vector(vec![leaf(0)]));
    assert_eq!(v.take_next_child_at_pos_index(), None);
    assert_eq!(v, Value::vector(vec![leaf(0)]));
}

#[test]
fn take_next_child_of_a_sequence_never_takes_slot_0() {
    let mut v = Value::vector(vec![cell(leaf(1), leaf(2)), leaf(3), leaf(4)]);
    assert_eq!(v.take_next_child_at_pos_index(), None);
    assert_eq!(v, Value::vector(vec![cell(leaf(1), leaf(2))]));

    let mut single = Value::vector(vec![cell(leaf(1), leaf(2))]);
    assert_eq!(single.take_next_child_at_pos_index(), None);
    assert_eq!(single, Value::vector(vec![cell(leaf(1), leaf(2))]));

    let mut empty = Value::vector(vec![]);
    assert_eq!(empty.take_next_child_at_pos_index(), None);
    assert_eq!(empty, Value::vector(vec![]));
}

#[test]
fn take_next_child_of_a_leaf_is_nothing() {
    let mut number = leaf(1);
    assert_eq!(number.take_next_child_at_pos_index(), None);
    assert_eq!(number, leaf(1));
    let mut text = Value::from("bare");
    assert_eq!(text.take_next_child_at_pos_index(), None);
    assert_eq!(text, Value::from("bare"));
}

#[test]
fn take_next_child_at_any_index_prefers_slot_0() {
    let mut v = Value::vector(vec![cell(leaf(1), leaf(2)), Value::vector(vec![]), leaf(3)]);
    assert_eq!(v.take_next_child_at_any_index(), Some(cell(leaf(1), leaf(2))));
    assert_eq!(v.take_next_child_at_any_index(), Some(Value::vector(vec![])));
    assert_eq!(v.take_next_child_at_any_index(), None);
    assert_eq!(v, Value::vector(vec![Value::Nil]));
}
