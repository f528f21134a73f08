//! The type predicates for the disjoint types, held against one another.

use crate::datum::Datum;
use crate::value::Value;
use vstd::prelude::*;

verus! {

/// How many disjoint types there are.
pub const TYPE_COUNT: usize = 8;

/// The name of the disjoint type number `i`.
pub open spec fn kind_name(i: int) -> Seq<char> {
    if i == 0 {
        "string"@
    } else if i == 1 {
        "symbol"@
    } else if i == 2 {
        "keyword"@
    } else if i == 3 {
        "nil"@
    } else if i == 4 {
        "number"@
    } else if i == 5 {
        "char"@
    } else if i == 6 {
        "list"@
    } else {
        "vector"@
    }
}

/// Whether a datum is of the disjoint type number `i`.
pub open spec fn is_of_type(d: Datum, i: int) -> bool {
    if i == 0 {
        d is String
    } else if i == 1 {
        d is Symbol
    } else if i == 2 {
        d is Keyword
    } else if i == 3 {
        d is Nil
    } else if i == 4 {
        d is Number
    } else if i == 5 {
        d is Char
    } else if i == 6 {
        d.is_list()
    } else {
        d is Vector
    }
}

/// `str`'s `==` tells whether the two texts hold the same characters.
#[verifier::external_body]
fn same_text(a: &str, b: &str) -> (same: bool)
    ensures
        same == (a@ == b@),
{
    a == b
}

fn name_of_type(i: usize) -> (text: &'static str)
    requires
        i < TYPE_COUNT,
    ensures
        text@ == kind_name(i as int),
{
    if i == 0 {
        "string"
    } else if i == 1 {
        "symbol"
    } else if i == 2 {
        "keyword"
    } else if i == 3 {
        "nil"
    } else if i == 4 {
        "number"
    } else if i == 5 {
        "char"
    } else if i == 6 {
        "list"
    } else {
        "vector"
    }
}

fn predicate_of_type(value: &Value, i: usize) -> (holds: bool)
    requires
        i < TYPE_COUNT,
    ensures
        holds == is_of_type(value@, i as int),
{
    if i == 0 {
        value.is_string()
    } else if i == 1 {
        value.is_symbol()
    } else if i == 2 {
        value.is_keyword()
    } else if i == 3 {
        value.is_nil()
    } else if i == 4 {
        value.is_number()
    } else if i == 5 {
        value.is_char()
    } else if i == 6 {
        value.is_list()
    } else {
        value.is_vector()
    }
}

/// Whether `value` is of the type named `name` and of no other: the
/// predicate of that name holds of it, and the predicate of every other name
/// does not. No value passes under a name that is not a type's.
pub fn check_type_predicates(value: &Value, name: &str) -> (ok: bool)
    ensures
        ok == {
            &&& exists|i: int| 0 <= i < TYPE_COUNT && #[trigger] kind_name(i) == name@
            &&& forall|j: int|
                0 <= j < TYPE_COUNT ==> is_of_type(value@, j) == (#[trigger] kind_name(j)
                    == name@)
        },
{
    let mut named = false;
    let mut ok = true;
    let mut i: usize = 0;
    while i < TYPE_COUNT
        invariant
            i <= TYPE_COUNT,
            named == exists|k: int| 0 <= k < i && #[trigger] kind_name(k) == name@,
            ok == forall|j: int|
                0 <= j < i ==> is_of_type(value@, j) == (#[trigger] kind_name(j)
                    == name@),
        decreases TYPE_COUNT - i,
    {
        let is_named = same_text(name_of_type(i), name);
        let holds = predicate_of_type(value, i);
        if is_named {
            named = true;
        }
        if holds != is_named {
            ok = false;
        }
        i += 1;
    }
    named && ok
}

} // verus!
