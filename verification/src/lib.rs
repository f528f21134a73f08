//! S-expression values that can be torn down without recursion.
//!
//! A [`Value`] is a tree: cells and sequences own other values. Wrapped in a
//! [`DeepSafeValueDropper`], a value of any depth is taken apart by a loop when
//! it goes out of scope.

pub mod construct;
pub mod datum;
pub mod drop;
pub mod inspect;
pub mod laws;
pub mod number;
pub mod predicates;
pub mod value;

pub use datum::Datum;
pub use drop::{
    child_at_index_0, is_branch_node, replace_branch_node, slot_count, take_branch_node,
    DeepSafeValueDropper,
};
pub use number::Number;
pub use predicates::check_type_predicates;
pub use value::{Cons, Value};
