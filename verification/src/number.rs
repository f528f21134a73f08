//! Integer numbers as they occur in S-expressions.

use vstd::prelude::*;

verus! {

/// A whole number between `i64::MIN` and `u64::MAX`.
#[derive(Clone, Copy, Debug, PartialEq, Eq, Structural)]
pub struct Number {
    n: i128,
}

impl View for Number {
    type V = int;

    closed spec fn view(&self) -> int {
        self.n as int
    }
}

impl Number {
    /// The number that stands for `n`, for `n` between `i64::MIN` and `u64::MAX`.
    pub closed spec fn of(n: int) -> Number {
        Number { n: n as i128 }
    }

    /// `of` gives the number whose view is the integer it was given.
    pub proof fn lemma_of(n: int)
        requires
            i64::MIN <= n <= u64::MAX,
        ensures
            Number::of(n)@ == n,
    {
    }

    /// Two numbers with the same view are the same number.
    pub proof fn lemma_view_injective(a: Number, b: Number)
        requires
            a@ == b@,
        ensures
            a == b,
    {
    }

    /// The number as an `i64`, where it fits.
    pub fn as_i64(&self) -> (r: Option<i64>)
        ensures
            r == if i64::MIN <= self@ <= i64::MAX {
                Some(self@ as i64)
            } else {
                None
            },
    {
        if -0x8000_0000_0000_0000i128 <= self.n && self.n <= 0x7fff_ffff_ffff_ffffi128 {
            Some(self.n as i64)
        } else {
            None
        }
    }

    /// The number as a `u64`, where it fits.
    pub fn as_u64(&self) -> (r: Option<u64>)
        ensures
            r == if 0 <= self@ <= u64::MAX {
                Some(self@ as u64)
            } else {
                None
            },
    {
        if 0i128 <= self.n && self.n <= 0xffff_ffff_ffff_ffffi128 {
            Some(self.n as u64)
        } else {
            None
        }
    }

    /// Whether both stand for the same integer.
    pub fn same(&self, other: &Number) -> (r: bool)
        ensures
            r == (self@ == other@),
    {
        self.n == other.n
    }
}

impl From<i32> for Number {
    fn from(n: i32) -> (r: Number)
        ensures
            r@ == n,
    {
        Number { n: n as i128 }
    }
}

impl vstd::std_specs::convert::FromSpecImpl<i32> for Number {
    open spec fn obeys_from_spec() -> bool {
        true
    }

    open spec fn from_spec(n: i32) -> Number {
        Number::of(n as int)
    }
}

impl From<i64> for Number {
    fn from(n: i64) -> (r: Number)
        ensures
            r@ == n,
    {
        Number { n: n as i128 }
    }
}

impl vstd::std_specs::convert::FromSpecImpl<i64> for Number {
    open spec fn obeys_from_spec() -> bool {
        true
    }

    open spec fn from_spec(n: i64) -> Number {
        Number::of(n as int)
    }
}

impl From<u64> for Number {
    fn from(n: u64) -> (r: Number)
        ensures
            r@ == n,
    {
        Number { n: n as i128 }
    }
}

impl vstd::std_specs::convert::FromSpecImpl<u64> for Number {
    open spec fn obeys_from_spec() -> bool {
        true
    }

    open spec fn from_spec(n: u64) -> Number {
        Number::of(n as int)
    }
}

} // verus!
