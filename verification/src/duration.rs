//! A signed count of days, the unit of date arithmetic.

use vstd::prelude::*;

verus! {

/// A signed number of days.  It has no calendar of its own until it is
/// combined with a date.
#[derive(Clone, Copy, Debug, PartialEq, Eq, Structural)]
pub struct Duration {
    num: i64,
}

impl Duration {
    /// The number of days this duration stands for.
    pub closed spec fn spec_days(self) -> int {
        self.num as int
    }

    /// A duration of `n` days.
    pub fn days(n: i64) -> (d: Duration)
        ensures
            d.spec_days() == n,
    {
        Duration { num: n }
    }

    /// The number of days this duration stands for.
    pub fn num_days(&self) -> (n: i64)
        ensures
            n == self.spec_days(),
    {
        self.num
    }
}

} // verus!
